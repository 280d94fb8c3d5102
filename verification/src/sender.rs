//! The outbound sender loop: the tool connects out once, then cycles
//! through three stages — hand the whole current payload to the connection
//! (looping on partial writes until nothing is left), take one bounded
//! reply and print exactly its bytes, and refill the payload from standard
//! input before the next round. As with the connection pipeline, the loop's
//! decisions are a verified state machine over plain values; the unverified
//! shell around the library performs the blocking operations and reports
//! their outcomes back.

use vstd::prelude::*;
use crate::command::subvec;

verus! {

/// The sender's state, over mathematical values.
#[verifier::ext_equal]
pub enum SenderStateModel {
    /// Bytes of the current payload still to hand to the connection.
    Sending { remaining: Seq<u8> },
    /// The payload is fully sent; one reply is being read.
    AwaitingReply,
    /// The reply is being printed.
    PrintingReply,
    /// Standard input is being read for the next payload.
    Refilling,
    /// The loop is over; the process ends.
    Finished,
}

/// The next blocking operation the sender must perform, over mathematical
/// values.
#[verifier::ext_equal]
pub enum SenderActionModel {
    /// Write some prefix of `data` to the connection.
    SendRemaining { data: Seq<u8> },
    /// One bounded read of the reply from the connection.
    ReadReply,
    /// Print exactly `data` to standard output and flush it.
    Print { data: Seq<u8> },
    /// Read a fresh payload from standard input, blocking until it ends.
    ReadInput,
    /// Stop: close the connection and end the process.
    Stop,
}

/// What the sender's last action came to, over mathematical values.
#[verifier::ext_equal]
pub enum SenderEventModel {
    /// This many leading bytes of the remaining payload were written.
    Wrote { count: int },
    /// The write failed.
    SendFailed,
    /// The reply read returned these bytes; none means the peer closed.
    Reply { data: Seq<u8> },
    /// The reply read failed.
    ReplyFailed,
    /// The reply was printed.
    Printed,
    /// Standard input yielded this payload (possibly empty at its end).
    Input { data: Seq<u8> },
}

/// The sender's state.
#[derive(PartialEq, Eq, Debug)]
pub enum SenderState {
    Sending { remaining: Vec<u8> },
    AwaitingReply,
    PrintingReply,
    Refilling,
    Finished,
}

/// The next blocking operation the sender must perform.
#[derive(PartialEq, Eq, Debug)]
pub enum SenderAction {
    SendRemaining { data: Vec<u8> },
    ReadReply,
    Print { data: Vec<u8> },
    ReadInput,
    Stop,
}

/// What the sender's last action came to.
#[derive(PartialEq, Eq, Debug)]
pub enum SenderEvent {
    Wrote { count: usize },
    SendFailed,
    Reply { data: Vec<u8> },
    ReplyFailed,
    Printed,
    Input { data: Vec<u8> },
}

impl View for SenderState {
    type V = SenderStateModel;

    open spec fn view(&self) -> SenderStateModel {
        match self {
            SenderState::Sending { remaining } => SenderStateModel::Sending {
                remaining: remaining@,
            },
            SenderState::AwaitingReply => SenderStateModel::AwaitingReply,
            SenderState::PrintingReply => SenderStateModel::PrintingReply,
            SenderState::Refilling => SenderStateModel::Refilling,
            SenderState::Finished => SenderStateModel::Finished,
        }
    }
}

impl View for SenderAction {
    type V = SenderActionModel;

    open spec fn view(&self) -> SenderActionModel {
        match self {
            SenderAction::SendRemaining { data } => SenderActionModel::SendRemaining {
                data: data@,
            },
            SenderAction::ReadReply => SenderActionModel::ReadReply,
            SenderAction::Print { data } => SenderActionModel::Print { data: data@ },
            SenderAction::ReadInput => SenderActionModel::ReadInput,
            SenderAction::Stop => SenderActionModel::Stop,
        }
    }
}

impl View for SenderEvent {
    type V = SenderEventModel;

    open spec fn view(&self) -> SenderEventModel {
        match self {
            SenderEvent::Wrote { count } => SenderEventModel::Wrote { count: *count as int },
            SenderEvent::SendFailed => SenderEventModel::SendFailed,
            SenderEvent::Reply { data } => SenderEventModel::Reply { data: data@ },
            SenderEvent::ReplyFailed => SenderEventModel::ReplyFailed,
            SenderEvent::Printed => SenderEventModel::Printed,
            SenderEvent::Input { data } => SenderEventModel::Input { data: data@ },
        }
    }
}

/// One step of the sender loop: from the current state and the outcome of
/// the previous operation to the next state and operation. An event a
/// state never asked for stops the loop.
pub open spec fn sender_model_step(s: SenderStateModel, e: SenderEventModel) -> (
    SenderStateModel,
    SenderActionModel,
) {
    match (s, e) {
        (SenderStateModel::Sending { remaining }, SenderEventModel::Wrote { count }) => if count
            >= remaining.len() {
            (SenderStateModel::AwaitingReply, SenderActionModel::ReadReply)
        } else {
            (
                SenderStateModel::Sending { remaining: remaining.skip(count) },
                SenderActionModel::SendRemaining { data: remaining.skip(count) },
            )
        },
        (SenderStateModel::Sending { remaining }, SenderEventModel::SendFailed) => (
            SenderStateModel::Finished,
            SenderActionModel::Stop,
        ),
        (SenderStateModel::AwaitingReply, SenderEventModel::Reply { data }) => if data.len() > 0 {
            (SenderStateModel::PrintingReply, SenderActionModel::Print { data })
        } else {
            (SenderStateModel::Finished, SenderActionModel::Stop)
        },
        (SenderStateModel::AwaitingReply, SenderEventModel::ReplyFailed) => (
            SenderStateModel::Finished,
            SenderActionModel::Stop,
        ),
        (SenderStateModel::PrintingReply, SenderEventModel::Printed) => (
            SenderStateModel::Refilling,
            SenderActionModel::ReadInput,
        ),
        (SenderStateModel::Refilling, SenderEventModel::Input { data }) => (
            SenderStateModel::Sending { remaining: data },
            SenderActionModel::SendRemaining { data },
        ),
        _ => (SenderStateModel::Finished, SenderActionModel::Stop),
    }
}

/// The loop's entry: the first payload read from standard input, about to
/// be sent whole.
pub open spec fn sender_entry(payload: Seq<u8>) -> (SenderStateModel, SenderActionModel) {
    (
        SenderStateModel::Sending { remaining: payload },
        SenderActionModel::SendRemaining { data: payload },
    )
}

/// Starts the sender loop on its first payload.
pub fn sender_start(payload: Vec<u8>) -> (r: (SenderState, SenderAction))
    ensures
        r.0@ == sender_entry(payload@).0,
        r.1@ == sender_entry(payload@).1,
{
    let data = subvec(&payload, 0, payload.len());
    proof {
        assert(data@ =~= payload@);
    }
    (SenderState::Sending { remaining: payload }, SenderAction::SendRemaining { data })
}

/// One step of the sender loop over executable values, tied exactly to
/// `sender_model_step`.
pub fn sender_step(state: SenderState, event: SenderEvent) -> (r: (SenderState, SenderAction))
    ensures
        r.0@ == sender_model_step(state@, event@).0,
        r.1@ == sender_model_step(state@, event@).1,
{
    match (state, event) {
        (SenderState::Sending { remaining }, SenderEvent::Wrote { count }) => {
            if count >= remaining.len() {
                (SenderState::AwaitingReply, SenderAction::ReadReply)
            } else {
                let rest = subvec(&remaining, count, remaining.len());
                proof {
                    assert(rest@ =~= remaining@.skip(count as int));
                }
                let rest2 = subvec(&remaining, count, remaining.len());
                proof {
                    assert(rest2@ =~= remaining@.skip(count as int));
                }
                (
                    SenderState::Sending { remaining: rest },
                    SenderAction::SendRemaining { data: rest2 },
                )
            }
        },
        (SenderState::Sending { remaining: _ }, SenderEvent::SendFailed) => (
            SenderState::Finished,
            SenderAction::Stop,
        ),
        (SenderState::AwaitingReply, SenderEvent::Reply { data }) => {
            if data.len() > 0 {
                (SenderState::PrintingReply, SenderAction::Print { data })
            } else {
                (SenderState::Finished, SenderAction::Stop)
            }
        },
        (SenderState::AwaitingReply, SenderEvent::ReplyFailed) => (
            SenderState::Finished,
            SenderAction::Stop,
        ),
        (SenderState::PrintingReply, SenderEvent::Printed) => (
            SenderState::Refilling,
            SenderAction::ReadInput,
        ),
        (SenderState::Refilling, SenderEvent::Input { data }) => {
            let copy = subvec(&data, 0, data.len());
            proof {
                assert(copy@ =~= data@);
            }
            (SenderState::Sending { remaining: data }, SenderAction::SendRemaining { data: copy })
        },
        _ => (SenderState::Finished, SenderAction::Stop),
    }
}

/// The loop asks for a reply exactly when the whole payload has been
/// handed to the connection: a ReadReply action appears if and only if the
/// step consumed a write that covered every remaining byte. No fresh
/// payload is requested, and none is sent, before the previous one is
/// fully out the door.
pub proof fn lemma_reply_read_only_after_full_send(s: SenderStateModel, e: SenderEventModel)
    ensures
        sender_model_step(s, e).1 is ReadReply <==> (s matches SenderStateModel::Sending {
            remaining,
        } && e matches SenderEventModel::Wrote { count } && count >= remaining.len()),
{
}

/// A reply is printed exactly as it came off the wire, before any further
/// input is read; an empty reply (the peer closed) or a failed read stops
/// the loop; and a fresh payload from standard input starts the next round
/// whole.
pub proof fn lemma_reply_printed_exactly(data: Seq<u8>, input: Seq<u8>)
    ensures
        data.len() > 0 ==> sender_model_step(
            SenderStateModel::AwaitingReply,
            SenderEventModel::Reply { data },
        ) == (SenderStateModel::PrintingReply, SenderActionModel::Print { data }),
        data.len() == 0 ==> sender_model_step(
            SenderStateModel::AwaitingReply,
            SenderEventModel::Reply { data },
        ) == (SenderStateModel::Finished, SenderActionModel::Stop),
        sender_model_step(SenderStateModel::AwaitingReply, SenderEventModel::ReplyFailed) == (
            SenderStateModel::Finished,
            SenderActionModel::Stop,
        ),
        sender_model_step(SenderStateModel::PrintingReply, SenderEventModel::Printed) == (
            SenderStateModel::Refilling,
            SenderActionModel::ReadInput,
        ),
        sender_model_step(SenderStateModel::Refilling, SenderEventModel::Input { data: input })
            == (
            SenderStateModel::Sending { remaining: input },
            SenderActionModel::SendRemaining { data: input },
        ),
{
}

} // verus!
