//! The update function: a total, pure transition
//! `(Model, Message) -> (Model, Option<Message>)`, and the drain loop
//! that applies follow-up messages until none is pending.

use vstd::prelude::*;

use crate::input::spec_handle_event;
use crate::input::handle_event;
use crate::input::InputEvent;
use crate::model::Message;
use crate::model::Model;
use crate::model::RunningState;

verus! {

/// What one transition yields. `Increment` and `Decrement` move the
/// counter by one and, when the counter *before* the move already lay
/// outside the band `-50 ..= 50`, emit a follow-up `Reset`; the test on
/// the pre-move value delays the reset by one step past the band edge,
/// which is the intended policy. `Reset` zeroes the counter; `Quit`
/// marks the model done. The payload is never touched.
pub open spec fn spec_update(m: Model, msg: Message) -> (Model, Option<Message>) {
    match msg {
        Message::Increment => (
            Model { counter: (m.counter + 1) as i32, ..m },
            if m.counter > 50 {
                Some(Message::Reset)
            } else {
                None
            },
        ),
        Message::Decrement => (
            Model { counter: (m.counter - 1) as i32, ..m },
            if m.counter < -50 {
                Some(Message::Reset)
            } else {
                None
            },
        ),
        Message::Reset => (Model { counter: 0, ..m }, None),
        Message::Quit => (Model { running_state: RunningState::Done, ..m }, None),
    }
}

/// Bound on the length of a follow-up chain starting at `msg`: only
/// `Increment` and `Decrement` emit a follow-up, and that follow-up is
/// always `Reset`, which emits none.
pub open spec fn msg_rank(msg: Message) -> nat {
    match msg {
        Message::Increment => 2,
        Message::Decrement => 2,
        Message::Reset => 1,
        Message::Quit => 1,
    }
}

/// The model after applying `msg` and then every follow-up message, in
/// order, until a step yields none. The rank guard justifies the
/// recursion; it always holds, since a follow-up is only ever `Reset`.
pub open spec fn spec_drain(m: Model, msg: Message) -> Model
    decreases msg_rank(msg),
{
    let (next, followup) = spec_update(m, msg);
    match followup {
        None => next,
        Some(f) => if msg_rank(f) < msg_rank(msg) {
            spec_drain(next, f)
        } else {
            next
        },
    }
}

/// One transition step, exactly `spec_update`. Total over the message
/// alphabet; the counter moves stay within `i32` by the preconditions.
pub fn update(model: &Model, msg: Message) -> (r: (Model, Option<Message>))
    requires
        msg == Message::Increment ==> model.counter < i32::MAX,
        msg == Message::Decrement ==> model.counter > i32::MIN,
    ensures
        r == spec_update(*model, msg),
{
    match msg {
        Message::Increment => {
            let new_model = Model { counter: model.counter + 1, ..*model };
            if model.counter > 50 {
                (new_model, Some(Message::Reset))
            } else {
                (new_model, None)
            }
        },
        Message::Decrement => {
            let new_model = Model { counter: model.counter - 1, ..*model };
            if model.counter < -50 {
                (new_model, Some(Message::Reset))
            } else {
                (new_model, None)
            }
        },
        Message::Reset => (Model { counter: 0, ..*model }, None),
        Message::Quit => (Model { running_state: RunningState::Done, ..*model }, None),
    }
}

/// Apply `msg` to the model, then keep applying whatever follow-up
/// message each step yields, without rendering or polling in between,
/// until a step yields none. Returns the settled model.
pub fn process_message(model: &Model, msg: Message) -> (r: Model)
    requires
        msg == Message::Increment ==> model.counter < i32::MAX,
        msg == Message::Decrement ==> model.counter > i32::MIN,
    ensures
        r == spec_drain(*model, msg),
{
    let mut m: Model = *model;
    let mut current_msg: Option<Message> = Some(msg);
    while current_msg.is_some()
        invariant
            match current_msg {
                Some(c) => {
                    &&& spec_drain(m, c) == spec_drain(*model, msg)
                    &&& (c == Message::Increment ==> m.counter < i32::MAX)
                    &&& (c == Message::Decrement ==> m.counter > i32::MIN)
                },
                None => m == spec_drain(*model, msg),
            },
        decreases (match current_msg {
            Some(c) => msg_rank(c),
            None => 0,
        }),
    {
        let c = current_msg.unwrap();
        let (new_model, next_msg) = update(&m, c);
        m = new_model;
        current_msg = next_msg;
    }
    m
}

/// One full input cycle on the model: classify the (possibly absent)
/// input event, and where it maps to a message, apply it and drain the
/// follow-ups. Where no message is produced the model is returned
/// unchanged.
pub open spec fn spec_process_event(m: Model, event: Option<InputEvent>) -> Model {
    match spec_handle_event(event) {
        Some(msg) => spec_drain(m, msg),
        None => m,
    }
}

/// Exec counterpart of `spec_process_event`: the update-drain phase of
/// one outer loop iteration, fed with what the input phase observed.
pub fn process_event(model: &Model, event: Option<InputEvent>) -> (r: Model)
    requires
        spec_handle_event(event) == Some(Message::Increment) ==> model.counter < i32::MAX,
        spec_handle_event(event) == Some(Message::Decrement) ==> model.counter > i32::MIN,
    ensures
        r == spec_process_event(*model, event),
        spec_handle_event(event) is None ==> r == *model,
{
    match handle_event(event) {
        Some(msg) => process_message(model, msg),
        None => *model,
    }
}

} // verus!
