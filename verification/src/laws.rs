//! Laws of the state machine, each proved once and for all inputs:
//! the reset band, the quiet band, reset and quit behaviour, quit
//! idempotence, payload invariance and run-state monotonicity.

use vstd::prelude::*;

use crate::model::Message;
use crate::model::Model;
use crate::model::RunningState;
use crate::update::spec_drain;
use crate::update::spec_update;

verus! {

/// Incrementing a counter already above the band yields the counter
/// plus one together with a follow-up `Reset`, and draining that
/// follow-up settles the counter at zero, leaving the rest of the
/// model as `Increment` left it.
pub proof fn lemma_increment_above_band(m: Model)
    requires
        m.counter > 50,
        m.counter < i32::MAX,
    ensures
        spec_update(m, Message::Increment).0.counter == m.counter + 1,
        spec_update(m, Message::Increment).1 == Some(Message::Reset),
        spec_drain(m, Message::Increment).counter == 0,
        spec_drain(m, Message::Increment).running_state == m.running_state,
        spec_drain(m, Message::Increment).api_key == m.api_key,
{
    let m1 = spec_update(m, Message::Increment).0;
    assert(spec_drain(m, Message::Increment) == spec_drain(m1, Message::Reset));
    assert(spec_drain(m1, Message::Reset) == spec_update(m1, Message::Reset).0);
}

/// Decrementing a counter already below the band yields the counter
/// minus one together with a follow-up `Reset`, and draining settles
/// the counter at zero.
pub proof fn lemma_decrement_below_band(m: Model)
    requires
        m.counter < -50,
        m.counter > i32::MIN,
    ensures
        spec_update(m, Message::Decrement).0.counter == m.counter - 1,
        spec_update(m, Message::Decrement).1 == Some(Message::Reset),
        spec_drain(m, Message::Decrement).counter == 0,
        spec_drain(m, Message::Decrement).running_state == m.running_state,
        spec_drain(m, Message::Decrement).api_key == m.api_key,
{
    let m1 = spec_update(m, Message::Decrement).0;
    assert(spec_drain(m, Message::Decrement) == spec_drain(m1, Message::Reset));
    assert(spec_drain(m1, Message::Reset) == spec_update(m1, Message::Reset).0);
}

/// Inside the band `-50 ..= 50`, neither `Increment` nor `Decrement`
/// ever emits a follow-up message.
pub proof fn lemma_band_no_followup(m: Model, msg: Message)
    requires
        -50 <= m.counter <= 50,
        msg == Message::Increment || msg == Message::Decrement,
    ensures
        spec_update(m, msg).1 is None,
{
}

/// `Reset` yields counter zero and no follow-up, whatever the prior
/// state; run state and payload are untouched.
pub proof fn lemma_reset(m: Model)
    ensures
        spec_update(m, Message::Reset).0.counter == 0,
        spec_update(m, Message::Reset).0.running_state == m.running_state,
        spec_update(m, Message::Reset).0.api_key == m.api_key,
        spec_update(m, Message::Reset).1 is None,
{
}

/// `Quit` yields run state `Done` and no follow-up; counter and
/// payload are unchanged.
pub proof fn lemma_quit(m: Model)
    ensures
        spec_update(m, Message::Quit).0.running_state == RunningState::Done,
        spec_update(m, Message::Quit).0.counter == m.counter,
        spec_update(m, Message::Quit).0.api_key == m.api_key,
        spec_update(m, Message::Quit).1 is None,
{
}

/// Applying `Quit` twice in sequence (draining each time) leaves the
/// same model as applying it once.
pub proof fn lemma_quit_idempotent(m: Model)
    ensures
        spec_drain(spec_drain(m, Message::Quit), Message::Quit) == spec_drain(m, Message::Quit),
{
}

/// No message ever alters the payload: neither one transition step nor
/// a full drain touches the 32-byte field.
pub proof fn lemma_payload_invariant(m: Model, msg: Message)
    ensures
        spec_update(m, msg).0.api_key == m.api_key,
        spec_drain(m, msg).api_key == m.api_key,
{
    let (m1, f) = spec_update(m, msg);
    match f {
        Some(g) => {
            assert(spec_drain(m, msg) == spec_drain(m1, g));
            assert(spec_drain(m1, g) == spec_update(m1, g).0);
        },
        None => {},
    }
}

/// The run state is monotonic: once `Done`, every further transition
/// (and every full drain) leaves it `Done`; and only `Quit` ever turns
/// `Running` into `Done`.
pub proof fn lemma_running_state_monotonic(m: Model, msg: Message)
    ensures
        m.running_state == RunningState::Done ==> spec_update(m, msg).0.running_state
            == RunningState::Done,
        m.running_state == RunningState::Done ==> spec_drain(m, msg).running_state
            == RunningState::Done,
        spec_update(m, msg).0.running_state == RunningState::Done <==> (m.running_state
            == RunningState::Done || msg == Message::Quit),
{
    let (m1, f) = spec_update(m, msg);
    match f {
        Some(g) => {
            assert(spec_drain(m, msg) == spec_drain(m1, g));
            assert(spec_drain(m1, g) == spec_update(m1, g).0);
        },
        None => {},
    }
}

/// The model after sending `msg` to `m` `k` times in sequence,
/// draining the follow-ups of each send before the next.
pub open spec fn spec_iterate(m: Model, msg: Message, k: nat) -> Model
    decreases k,
{
    if k == 0 {
        m
    } else {
        spec_drain(spec_iterate(m, msg, (k - 1) as nat), msg)
    }
}

/// Starting from counter zero, `k` drained increments leave the
/// counter at exactly `k`, for every `k` up to 51: the band test on
/// the pre-increment value delays the reset one step past the band
/// edge, so even the step from 50 to 51 emits no follow-up. Run state
/// and payload are untouched throughout.
pub proof fn lemma_increments_from_zero(m: Model, k: nat)
    requires
        m.counter == 0,
        k <= 51,
    ensures
        spec_iterate(m, Message::Increment, k).counter == k,
        spec_iterate(m, Message::Increment, k).running_state == m.running_state,
        spec_iterate(m, Message::Increment, k).api_key == m.api_key,
    decreases k,
{
    if k > 0 {
        lemma_increments_from_zero(m, (k - 1) as nat);
        let prev = spec_iterate(m, Message::Increment, (k - 1) as nat);
        assert(spec_iterate(m, Message::Increment, k) == spec_drain(prev, Message::Increment));
        assert(spec_drain(prev, Message::Increment) == spec_update(prev, Message::Increment).0);
    }
}

/// Starting from counter zero, the 52nd drained increment is the
/// first whose pre-value (51) lies past the band: it triggers the
/// follow-up reset, and the counter settles back at zero.
pub proof fn lemma_fifty_second_increment_resets(m: Model)
    requires
        m.counter == 0,
    ensures
        spec_iterate(m, Message::Increment, 52).counter == 0,
        spec_iterate(m, Message::Increment, 52).running_state == m.running_state,
        spec_iterate(m, Message::Increment, 52).api_key == m.api_key,
{
    lemma_increments_from_zero(m, 51);
    let prev = spec_iterate(m, Message::Increment, 51);
    assert(spec_iterate(m, Message::Increment, 52) == spec_drain(prev, Message::Increment));
    lemma_increment_above_band(prev);
}

/// Starting from counter zero, `k` drained decrements leave the
/// counter at exactly `-k`, for every `k` up to 51, by the symmetric
/// argument.
pub proof fn lemma_decrements_from_zero(m: Model, k: nat)
    requires
        m.counter == 0,
        k <= 51,
    ensures
        spec_iterate(m, Message::Decrement, k).counter == -(k as int),
        spec_iterate(m, Message::Decrement, k).running_state == m.running_state,
        spec_iterate(m, Message::Decrement, k).api_key == m.api_key,
    decreases k,
{
    if k > 0 {
        lemma_decrements_from_zero(m, (k - 1) as nat);
        let prev = spec_iterate(m, Message::Decrement, (k - 1) as nat);
        assert(spec_iterate(m, Message::Decrement, k) == spec_drain(prev, Message::Decrement));
        assert(spec_drain(prev, Message::Decrement) == spec_update(prev, Message::Decrement).0);
    }
}

/// Starting from counter zero, the 52nd drained decrement triggers
/// the follow-up reset and the counter settles back at zero.
pub proof fn lemma_fifty_second_decrement_resets(m: Model)
    requires
        m.counter == 0,
    ensures
        spec_iterate(m, Message::Decrement, 52).counter == 0,
        spec_iterate(m, Message::Decrement, 52).running_state == m.running_state,
        spec_iterate(m, Message::Decrement, 52).api_key == m.api_key,
{
    lemma_decrements_from_zero(m, 51);
    let prev = spec_iterate(m, Message::Decrement, 51);
    assert(spec_iterate(m, Message::Decrement, 52) == spec_drain(prev, Message::Decrement));
    lemma_decrement_below_band(prev);
}

} // verus!
