use vstd::prelude::*;
use crate::frame::{
    axis_displacement, frame_allowed, frame_spawn_ids, next_state, outcome_matches,
    outcome_spawn_ids, player_hits, FrameInput, FrameOutcome, Position, MAX_DELTA_MICROS,
    MOVEMENT_SPEED,
};
use crate::state::GameState;

verus! {

/// The state after a sequence of frames.
pub open spec fn run(s: GameState, frames: Seq<FrameInput>) -> GameState
    decreases frames.len(),
{
    if frames.len() == 0 {
        s
    } else {
        next_state(run(s, frames.drop_last()), frames.last())
    }
}

/// Every frame of the sequence is one that the rules allow from the state
/// that the frames before it led to.
pub open spec fn allowed_run(s: GameState, frames: Seq<FrameInput>) -> bool
    decreases frames.len(),
{
    if frames.len() == 0 {
        true
    } else {
        allowed_run(s, frames.drop_last()) && frame_allowed(
            run(s, frames.drop_last()),
            frames.last(),
        )
    }
}

/// Scoring collisions over a sequence of frames.
pub open spec fn total_hits(frames: Seq<FrameInput>) -> nat
    decreases frames.len(),
{
    if frames.len() == 0 {
        0
    } else {
        total_hits(frames.drop_last()) + player_hits(frames.last().collisions@)
    }
}

/// The ids handed out over a sequence of frames, in order.
pub open spec fn spawned_ids(s: GameState, frames: Seq<FrameInput>) -> Seq<u64>
    decreases frames.len(),
{
    if frames.len() == 0 {
        seq![]
    } else {
        spawned_ids(s, frames.drop_last()) + frame_spawn_ids(
            run(s, frames.drop_last()),
            frames.last(),
        )
    }
}

/// Vertical movement of the player over a sequence of frames.
pub open spec fn total_dy(frames: Seq<FrameInput>) -> int
    decreases frames.len(),
{
    if frames.len() == 0 {
        0
    } else {
        total_dy(frames.drop_last()) + axis_displacement(
            frames.last().up_held,
            frames.last().down_held,
            frames.last().delta_micros,
        )
    }
}

/// Time spanned by a sequence of frames.
pub open spec fn total_delta(frames: Seq<FrameInput>) -> int
    decreases frames.len(),
{
    if frames.len() == 0 {
        0
    } else {
        total_delta(frames.drop_last()) + frames.last().delta_micros
    }
}

/// Without a reset, the score grows by one for each scoring collision.
pub proof fn lemma_score_counts_hits(s: GameState, frames: Seq<FrameInput>)
    requires
        forall|i: int| 0 <= i < frames.len() ==> !(#[trigger] frames[i]).reset_pressed,
        s.score + total_hits(frames) <= u32::MAX,
    ensures
        run(s, frames).score == s.score + total_hits(frames),
    decreases frames.len(),
{
    if frames.len() > 0 {
        let prefix = frames.drop_last();
        assert forall|i: int| 0 <= i < prefix.len() implies !(#[trigger] prefix[i]).reset_pressed by {
            assert(prefix[i] == frames[i]);
        }
        lemma_score_counts_hits(s, prefix);
        assert(!frames[frames.len() - 1].reset_pressed);
    }
}

/// After the last reset, at frame `k`, the score is the number of scoring
/// collisions in the frames that follow it.
pub proof fn lemma_score_counts_hits_since_reset(s: GameState, frames: Seq<FrameInput>, k: int)
    requires
        0 <= k < frames.len(),
        frames[k].reset_pressed,
        forall|j: int| k < j < frames.len() ==> !(#[trigger] frames[j]).reset_pressed,
        total_hits(frames.subrange(k + 1, frames.len() as int)) <= u32::MAX,
    ensures
        run(s, frames).score == total_hits(frames.subrange(k + 1, frames.len() as int)),
    decreases frames.len(),
{
    let n = frames.len() as int;
    let tail = frames.subrange(k + 1, n);
    if n == k + 1 {
        assert(tail.len() == 0);
    } else {
        let prefix = frames.drop_last();
        assert(tail.drop_last() =~= prefix.subrange(k + 1, n - 1));
        assert(tail.last() == frames.last());
        assert(!frames[n - 1].reset_pressed);
        assert forall|j: int| k < j < prefix.len() implies !(#[trigger] prefix[j]).reset_pressed by {
            assert(prefix[j] == frames[j]);
        }
        lemma_score_counts_hits_since_reset(s, prefix, k);
    }
}

/// A frame allowed by the rules keeps the state well formed and never
/// lowers the high score.
pub proof fn lemma_frame_keeps_high_score(s: GameState, f: FrameInput)
    requires
        frame_allowed(s, f),
    ensures
        next_state(s, f).wf(),
        s.high_score <= next_state(s, f).high_score,
{
    let d = s.spawn_timer.duration_micros as int;
    vstd::arithmetic::div_mod::lemma_mod_pos_bound(
        (s.spawn_timer.elapsed_micros + f.delta_micros) as int,
        d,
    );
}

/// Over any allowed sequence of frames the high score never goes down and
/// always bounds the score.
pub proof fn lemma_high_score_monotone(s: GameState, frames: Seq<FrameInput>, i: int)
    requires
        s.wf(),
        allowed_run(s, frames),
        0 <= i <= frames.len(),
    ensures
        run(s, frames.take(i)).high_score <= run(s, frames).high_score,
        run(s, frames).score <= run(s, frames).high_score,
        run(s, frames).wf(),
    decreases frames.len(),
{
    if frames.len() > 0 {
        let prefix = frames.drop_last();
        if i == frames.len() {
            assert(frames.take(i) =~= frames);
            lemma_high_score_monotone(s, prefix, 0);
        } else {
            assert(prefix.take(i) =~= frames.take(i));
            lemma_high_score_monotone(s, prefix, i);
        }
        lemma_frame_keeps_high_score(run(s, prefix), frames.last());
    } else {
        assert(frames.take(i) =~= frames);
    }
}

/// The objects that a frame's outcome spawns carry the ids that the frame
/// hands out, wherever the timer's object is placed.
pub proof fn lemma_outcome_spawn_ids(s: GameState, f: FrameInput, p: Position, out: FrameOutcome)
    requires
        outcome_matches(s, f, p, out),
    ensures
        outcome_spawn_ids(out) == frame_spawn_ids(s, f),
{
}

/// The ids handed out over an allowed sequence of frames are consecutive,
/// from the state's counter up to the counter at the end.
pub proof fn lemma_spawned_ids_consecutive(s: GameState, frames: Seq<FrameInput>)
    requires
        allowed_run(s, frames),
    ensures
        s.ferris_index <= run(s, frames).ferris_index,
        spawned_ids(s, frames).len() == run(s, frames).ferris_index - s.ferris_index,
        forall|i: int|
            0 <= i < spawned_ids(s, frames).len() ==> #[trigger] spawned_ids(s, frames)[i]
                == s.ferris_index + i,
    decreases frames.len(),
{
    if frames.len() > 0 {
        let prefix = frames.drop_last();
        let prev = run(s, prefix);
        let f = frames.last();
        lemma_spawned_ids_consecutive(s, prefix);
        let before = spawned_ids(s, prefix);
        let here = frame_spawn_ids(prev, f);
        assert forall|j: int| 0 <= j < here.len() implies here[j] == prev.ferris_index + j by {}
        let all = spawned_ids(s, frames);
        assert(all == before + here);
        assert forall|i: int| 0 <= i < all.len() implies #[trigger] all[i] == s.ferris_index + i by {
            if i >= before.len() {
                assert(all[i] == here[i - before.len()]);
            } else {
                assert(all[i] == before[i]);
            }
        }
    }
}

/// Every object receives a fresh id: ids handed out later are strictly
/// larger, whether the object came from a click or from the timer.
pub proof fn lemma_spawned_ids_increasing(s: GameState, frames: Seq<FrameInput>)
    requires
        allowed_run(s, frames),
    ensures
        forall|i: int, j: int|
            0 <= i < j < spawned_ids(s, frames).len() ==> spawned_ids(s, frames)[i]
                < spawned_ids(s, frames)[j],
        forall|i: int|
            0 <= i < spawned_ids(s, frames).len() ==> s.ferris_index <= #[trigger] spawned_ids(
                s,
                frames,
            )[i] < run(s, frames).ferris_index,
{
    lemma_spawned_ids_consecutive(s, frames);
}

/// With the up key held and the down key not, the player rises by the
/// speed times the total time, however that time is cut into frames.
pub proof fn lemma_movement_frame_rate_independent(frames: Seq<FrameInput>)
    requires
        forall|i: int|
            0 <= i < frames.len() ==> (#[trigger] frames[i]).up_held && !frames[i].down_held
                && frames[i].delta_micros <= MAX_DELTA_MICROS,
    ensures
        total_dy(frames) == MOVEMENT_SPEED * total_delta(frames),
    decreases frames.len(),
{
    if frames.len() > 0 {
        let prefix = frames.drop_last();
        assert forall|i: int| 0 <= i < prefix.len() implies (#[trigger] prefix[i]).up_held
            && !prefix[i].down_held && prefix[i].delta_micros <= MAX_DELTA_MICROS by {
            assert(prefix[i] == frames[i]);
        }
        lemma_movement_frame_rate_independent(prefix);
        assert(frames.last() == frames[frames.len() - 1]);
    }
}

/// A reset in a frame takes the score to zero and does nothing to the
/// high score: the frame leaves the same high score as without the reset.
pub proof fn lemma_reset_keeps_high_score(s: GameState, f: FrameInput)
    requires
        f.reset_pressed,
    ensures
        next_state(s, f).score == 0,
        next_state(s, f).high_score == next_state(
            s,
            (FrameInput { reset_pressed: false, ..f }),
        ).high_score,
{
}

} // verus!
