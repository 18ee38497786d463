use vstd::prelude::*;

use crate::command::IpcServerCommand;
use crate::errors::{would_block, IoErrorKind};
use crate::wire::Wire;

verus! {

/// The outcome of the client sender's one non-blocking read attempt, fed back
/// into the decision function by the embedding application.
#[derive(Clone, Debug)]
pub enum ClientEvent {
    /// The read returned these bytes (possibly none).
    ReadOk(Vec<u8>),
    /// The read failed, with the kind of the failure.
    ReadErr(IoErrorKind),
}

/// What the client sender does after one read attempt.
#[derive(Clone, Copy, Debug)]
pub enum ClientOutcome<R> {
    /// The read would block: sleep briefly and read again, indefinitely.
    RetryLater,
    /// The call gives up silently: the frame decoded to no response, or the
    /// read failed outright.
    NoResponse,
    /// The response the received frame stands for.
    Reply(R),
}

/// The response value a received frame stands for, if any.
pub open spec fn response_of<C: IpcServerCommand>(buf: Seq<u8>) -> Option<C::Response> {
    if exists|r: C::Response| (#[trigger] r.wire()) == buf {
        Some(choose|r: C::Response| (#[trigger] r.wire()) == buf)
    } else {
        None
    }
}

/// The one frame the client sender writes after connecting: the command's
/// encoding.
pub fn client_request_frame<C: IpcServerCommand>(command: &C) -> (r: Vec<u8>)
    ensures
        r@ == command.wire(),
{
    command.encode()
}

/// The client sender's decision after one read attempt: a would-block is
/// retried after a short sleep, any other read failure gives up, and received
/// bytes end the call — with the decoded response, or with nothing when the
/// frame decodes to no response.
pub fn client_on_read<C: IpcServerCommand>(ev: ClientEvent) -> (r: ClientOutcome<C::Response>)
    ensures
        match ev {
            ClientEvent::ReadOk(buf) => match response_of::<C>(buf@) {
                Some(resp) => r == ClientOutcome::<C::Response>::Reply(resp),
                None => r is NoResponse,
            },
            ClientEvent::ReadErr(k) => if k is WouldBlock {
                r is RetryLater
            } else {
                r is NoResponse
            },
        },
{
    match ev {
        ClientEvent::ReadOk(buf) => {
            match <C::Response as Wire>::decode(buf.as_slice()) {
                Some(resp) => {
                    proof {
                        let w = choose|x: C::Response| (#[trigger] x.wire()) == buf@;
                        C::lemma_response_wire_injective(w, resp);
                    }
                    ClientOutcome::Reply(resp)
                },
                None => ClientOutcome::NoResponse,
            }
        },
        ClientEvent::ReadErr(k) => {
            if would_block(&k) {
                ClientOutcome::RetryLater
            } else {
                ClientOutcome::NoResponse
            }
        },
    }
}

} // verus!
