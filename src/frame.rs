use vstd::prelude::*;
use vstd::string::StrSliceExecFns;
use crate::random::{in_spawn_area, random_spawn_point};
use crate::state::GameState;

verus! {

/// Player speed along each axis: units per second, which is the same as
/// micro-units per microsecond.
pub const MOVEMENT_SPEED: u64 = 80;

/// The longest frame the rules accept, so that a step of the player fits
/// in an `i64`: `MOVEMENT_SPEED * MAX_DELTA_MICROS <= i64::MAX`.
pub const MAX_DELTA_MICROS: u64 = 115292150460684697;

/// A point of the game world, in micro-units.
#[derive(Clone, Copy, Debug, PartialEq, Eq, Structural)]
pub struct Position {
    pub x: i64,
    pub y: i64,
}

/// Whether two colliders began or stopped overlapping.
#[derive(Clone, Copy, Debug, PartialEq, Eq, Structural)]
pub enum CollisionState {
    Begin,
    End,
}

/// A collision reported by the engine, naming the labels of both sprites.
#[derive(Clone, Debug)]
pub struct CollisionEvent {
    pub state: CollisionState,
    pub first: String,
    pub second: String,
}

/// What the engine reports for one frame.
#[derive(Clone, Debug)]
pub struct FrameInput {
    /// A quit key was pressed this frame.
    pub quit_pressed: bool,
    /// The reset key was pressed this frame.
    pub reset_pressed: bool,
    pub up_held: bool,
    pub down_held: bool,
    pub left_held: bool,
    pub right_held: bool,
    /// Where the left mouse button was pressed this frame, if it was.
    pub click: Option<Position>,
    /// Time since the previous frame.
    pub delta_micros: u64,
    pub collisions: Vec<CollisionEvent>,
}

/// A new object to place in the scene.
#[derive(Clone, Copy, Debug, PartialEq, Eq, Structural)]
pub struct Spawn {
    pub id: u64,
    pub position: Position,
}

/// What the engine is to do at the end of a frame.
#[derive(Clone, Debug)]
pub struct FrameOutcome {
    pub exit: bool,
    /// Labels of the sprites to take out of the scene, in order.
    pub removed: Vec<String>,
    /// Collisions that scored, one sound effect each.
    pub hits: u32,
    /// The score text needs a refresh.
    pub score_changed: bool,
    /// The high score text needs a refresh.
    pub high_score_changed: bool,
    /// Movement of the player.
    pub dx: i64,
    pub dy: i64,
    pub click_spawn: Option<Spawn>,
    pub timer_spawn: Option<Spawn>,
}

/// The player sprite's label.
pub open spec fn player_label() -> Seq<char> {
    seq!['p', 'l', 'a', 'y', 'e', 'r']
}

pub open spec fn starts_with_player(s: Seq<char>) -> bool {
    s.len() >= 6 && s.subrange(0, 6) == player_label()
}

/// A collision that scores: it begins, and exactly one of its two labels
/// starts with the player's label.
pub open spec fn is_player_hit(e: CollisionEvent) -> bool {
    &&& e.state == CollisionState::Begin
    &&& starts_with_player(e.first@) != starts_with_player(e.second@)
}

/// The labels that a scoring collision takes out of the scene: each of
/// the two that is not the player's.
pub open spec fn labels_removed_by(e: CollisionEvent) -> Seq<Seq<char>> {
    if is_player_hit(e) {
        (if e.first@ != player_label() { seq![e.first@] } else { seq![] }) + (if e.second@
            != player_label() {
            seq![e.second@]
        } else {
            seq![]
        })
    } else {
        seq![]
    }
}

pub open spec fn removed_labels(evs: Seq<CollisionEvent>) -> Seq<Seq<char>>
    decreases evs.len(),
{
    if evs.len() == 0 {
        seq![]
    } else {
        removed_labels(evs.drop_last()) + labels_removed_by(evs.last())
    }
}

/// How many of the events are scoring collisions.
pub open spec fn player_hits(evs: Seq<CollisionEvent>) -> nat
    decreases evs.len(),
{
    if evs.len() == 0 {
        0
    } else {
        player_hits(evs.drop_last()) + if is_player_hit(evs.last()) {
            1nat
        } else {
            0nat
        }
    }
}

/// Displacement along one axis in a frame of `delta` microseconds.
pub open spec fn axis_displacement(forward: bool, backward: bool, delta: u64) -> int {
    (if forward { MOVEMENT_SPEED * delta } else { 0 }) - (if backward {
        MOVEMENT_SPEED * delta
    } else {
        0
    })
}

/// The object spawned at the mouse in a frame, if any.
pub open spec fn click_spawn_of(s: GameState, f: FrameInput) -> Option<Spawn> {
    match f.click {
        Some(p) => Some(Spawn { id: s.ferris_index, position: p }),
        None => None,
    }
}

pub open spec fn click_count(f: FrameInput) -> nat {
    if f.click is Some { 1 } else { 0 }
}

/// The id of the object spawned by the timer in a frame, if any.
pub open spec fn timer_spawn_id(s: GameState, f: FrameInput) -> Option<u64> {
    if s.spawn_timer.fires(f.delta_micros) {
        Some((s.ferris_index + click_count(f)) as u64)
    } else {
        None
    }
}

/// The object spawned by the timer in a frame, if any, placed at `p`.
pub open spec fn timer_spawn_of(s: GameState, f: FrameInput, p: Position) -> Option<Spawn> {
    match timer_spawn_id(s, f) {
        Some(id) => Some(Spawn { id, position: p }),
        None => None,
    }
}

/// The ids handed out in a frame, in order: first the mouse's, then the timer's.
pub open spec fn frame_spawn_ids(s: GameState, f: FrameInput) -> Seq<u64> {
    (if f.click is Some {
        seq![s.ferris_index]
    } else {
        seq![]
    }) + match timer_spawn_id(s, f) {
        Some(id) => seq![id],
        None => seq![],
    }
}

/// How many objects a frame spawns.
pub open spec fn spawn_count(s: GameState, f: FrameInput) -> nat {
    click_count(f) + if s.spawn_timer.fires(f.delta_micros) {
        1nat
    } else {
        0nat
    }
}

/// The ids of the objects that an outcome spawns, in order.
pub open spec fn outcome_spawn_ids(out: FrameOutcome) -> Seq<u64> {
    (match out.click_spawn {
        Some(sp) => seq![sp.id],
        None => seq![],
    }) + match out.timer_spawn {
        Some(sp) => seq![sp.id],
        None => seq![],
    }
}

/// The state after a frame.
pub open spec fn next_state(s: GameState, f: FrameInput) -> GameState {
    let raised = s.score + player_hits(f.collisions@);
    GameState {
        high_score: if raised > s.high_score {
            raised as u32
        } else {
            s.high_score
        },
        score: if f.reset_pressed {
            0
        } else {
            raised as u32
        },
        ferris_index: (s.ferris_index + spawn_count(s, f)) as u64,
        spawn_timer: s.spawn_timer.ticked(f.delta_micros),
    }
}

/// What the rules allow of a frame: a well-formed state, a frame short
/// enough for exact movement, and counters that do not overflow.
pub open spec fn frame_allowed(s: GameState, f: FrameInput) -> bool {
    &&& s.wf()
    &&& f.delta_micros <= MAX_DELTA_MICROS
    &&& s.score + player_hits(f.collisions@) <= u32::MAX
    &&& s.ferris_index + 2 <= u64::MAX
}

/// The outcome of a frame from state `s`, with timer spawns placed at `p`.
pub open spec fn outcome_matches(s: GameState, f: FrameInput, p: Position, out: FrameOutcome) -> bool {
    &&& out.exit == f.quit_pressed
    &&& out.removed@.map_values(|l: String| l@) == removed_labels(f.collisions@)
    &&& out.hits == player_hits(f.collisions@)
    &&& out.score_changed == (out.hits > 0 || f.reset_pressed)
    &&& out.high_score_changed == (next_state(s, f).high_score != s.high_score)
    &&& out.dx == axis_displacement(f.right_held, f.left_held, f.delta_micros)
    &&& out.dy == axis_displacement(f.up_held, f.down_held, f.delta_micros)
    &&& out.click_spawn == click_spawn_of(s, f)
    &&& out.timer_spawn == timer_spawn_of(s, f, p)
}

/// Whether a label starts with the player's label.
pub fn label_starts_with_player(s: &String) -> (r: bool)
    ensures
        r == starts_with_player(s@),
{
    let t = s.as_str();
    if t.unicode_len() < 6 {
        return false;
    }
    let r = t.get_char(0) == 'p' && t.get_char(1) == 'l' && t.get_char(2) == 'a' && t.get_char(3)
        == 'y' && t.get_char(4) == 'e' && t.get_char(5) == 'r';
    proof {
        let pre = s@.subrange(0, 6);
        if r {
            assert(pre =~= player_label());
        } else if pre == player_label() {
            assert(pre[0] == 'p' && pre[1] == 'l' && pre[2] == 'a');
            assert(pre[3] == 'y' && pre[4] == 'e' && pre[5] == 'r');
        }
    }
    r
}

/// Whether a label is the player's label.
pub fn is_player_label(s: &String) -> (r: bool)
    ensures
        r == (s@ == player_label()),
{
    let starts = label_starts_with_player(s);
    let r = starts && s.as_str().unicode_len() == 6;
    proof {
        if r || s@ == player_label() {
            assert(s@ =~= s@.subrange(0, 6));
        }
    }
    r
}

/// Whether a collision scores.
pub fn is_player_collision(e: &CollisionEvent) -> (r: bool)
    ensures
        r == is_player_hit(*e),
{
    match e.state {
        CollisionState::Begin => {
            let a = label_starts_with_player(&e.first);
            let b = label_starts_with_player(&e.second);
            a != b
        },
        CollisionState::End => false,
    }
}

/// Scoring collisions among a prefix never outnumber those of the whole.
proof fn lemma_hits_prefix(evs: Seq<CollisionEvent>, i: int)
    requires
        0 <= i <= evs.len(),
    ensures
        player_hits(evs.subrange(0, i)) <= player_hits(evs),
    decreases evs.len(),
{
    if i < evs.len() {
        assert(evs.drop_last().subrange(0, i) =~= evs.subrange(0, i));
        lemma_hits_prefix(evs.drop_last(), i);
    } else {
        assert(evs.subrange(0, i) =~= evs);
    }
}

/// Scores each collision of the frame that involves the player and
/// collects the labels of the sprites that it removes.
pub fn resolve_collisions(state: &mut GameState, events: &Vec<CollisionEvent>) -> (r: (
    Vec<String>,
    u32,
))
    requires
        old(state).score <= old(state).high_score,
        old(state).score + player_hits(events@) <= u32::MAX,
    ensures
        final(state).score == old(state).score + player_hits(events@),
        final(state).high_score == if final(state).score > old(state).high_score {
            final(state).score
        } else {
            old(state).high_score
        },
        final(state).ferris_index == old(state).ferris_index,
        final(state).spawn_timer == old(state).spawn_timer,
        r.0@.map_values(|l: String| l@) == removed_labels(events@),
        r.1 == player_hits(events@),
{
    let mut removed: Vec<String> = Vec::new();
    let mut hits: u32 = 0;
    let ghost start = *state;
    let mut i: usize = 0;
    while i < events.len()
        invariant
            i <= events@.len(),
            start.score + player_hits(events@) <= u32::MAX,
            state.score == start.score + player_hits(events@.subrange(0, i as int)),
            hits == player_hits(events@.subrange(0, i as int)),
            state.high_score == if state.score > start.high_score {
                state.score
            } else {
                start.high_score
            },
            state.ferris_index == start.ferris_index,
            state.spawn_timer == start.spawn_timer,
            removed@.map_values(|l: String| l@) == removed_labels(events@.subrange(0, i as int)),
        decreases events@.len() - i,
    {
        let e = &events[i];
        let ghost before = removed@;
        proof {
            assert(events@.subrange(0, i + 1).drop_last() =~= events@.subrange(0, i as int));
            lemma_hits_prefix(events@, i + 1);
        }
        if is_player_collision(e) {
            if !is_player_label(&e.first) {
                removed.push(e.first.clone());
            }
            if !is_player_label(&e.second) {
                removed.push(e.second.clone());
            }
            state.record_hit();
            hits = hits + 1;
        }
        proof {
            assert(removed@.map_values(|l: String| l@) =~= before.map_values(|l: String| l@)
                + labels_removed_by(events@[i as int]));
        }
        i = i + 1;
    }
    proof {
        assert(events@.subrange(0, i as int) =~= events@);
    }
    (removed, hits)
}

/// Movement along one axis in a frame of `delta` microseconds, with the
/// keys for the forward and the backward direction held or not.
pub fn axis_step(forward: bool, backward: bool, delta: u64) -> (d: i64)
    requires
        delta <= MAX_DELTA_MICROS,
    ensures
        d == axis_displacement(forward, backward, delta),
{
    let step = (MOVEMENT_SPEED * delta) as i64;
    let mut d: i64 = 0;
    if forward {
        d = d + step;
    }
    if backward {
        d = d - step;
    }
    d
}

/// Runs one frame, placing an object spawned by the timer at `spawn_point`.
pub fn game_logic_at(state: &mut GameState, input: &FrameInput, spawn_point: Position) -> (out:
    FrameOutcome)
    requires
        frame_allowed(*old(state), *input),
    ensures
        *final(state) == next_state(*old(state), *input),
        final(state).wf(),
        outcome_matches(*old(state), *input, spawn_point, out),
{
    let ghost s0 = *state;
    let exit = input.quit_pressed;
    let old_high = state.high_score;
    let (removed, hits) = resolve_collisions(state, &input.collisions);
    let dx = axis_step(input.right_held, input.left_held, input.delta_micros);
    let dy = axis_step(input.up_held, input.down_held, input.delta_micros);
    let click_spawn = match input.click {
        Some(p) => {
            let id = state.take_spawn_id();
            Some(Spawn { id, position: p })
        },
        None => None,
    };
    let fired = state.spawn_timer.tick(input.delta_micros);
    let timer_spawn = if fired {
        let id = state.take_spawn_id();
        Some(Spawn { id, position: spawn_point })
    } else {
        None
    };
    if input.reset_pressed {
        state.reset();
    }
    let high_score_changed = state.high_score != old_high;
    FrameOutcome {
        exit,
        removed,
        hits,
        score_changed: hits > 0 || input.reset_pressed,
        high_score_changed,
        dx,
        dy,
        click_spawn,
        timer_spawn,
    }
}

/// Runs one frame; an object spawned by the timer lands at a random point
/// of the spawn area.
pub fn game_logic(state: &mut GameState, input: &FrameInput) -> (out: FrameOutcome)
    requires
        frame_allowed(*old(state), *input),
    ensures
        *final(state) == next_state(*old(state), *input),
        final(state).wf(),
        exists|p: Position| in_spawn_area(p) && outcome_matches(*old(state), *input, p, out),
{
    let spawn_point = if state.spawn_timer.finishes_within(input.delta_micros) {
        random_spawn_point()
    } else {
        Position { x: 0, y: 0 }
    };
    let ghost s0 = *state;
    let out = game_logic_at(state, input, spawn_point);
    assert(in_spawn_area(spawn_point) && outcome_matches(s0, *input, spawn_point, out));
    out
}

} // verus!
