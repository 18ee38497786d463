use vstd::prelude::*;

use core::marker::PhantomData;
use crate::command::IpcServerCommand;
use crate::errors::{would_block, IoErrorKind, IpcError};
use crate::setup::{setup_plan, setup_plan_spec, SetupStep};
use crate::wire::Wire;

verus! {

/// The fixed size of the read buffer: one read per connection, into a buffer
/// of this many bytes, is the only framing the protocol has. A frame that
/// does not fit is truncated by the operating system and will not decode.
pub const READ_BUF_LEN: usize = 1024;

/// The outcome of one operating-system call during a drain, fed back into the
/// engine by the embedding application.
#[derive(Clone, Debug)]
pub enum ServerEvent {
    /// The readiness multiplexer returned: the listener is readable.
    Polled,
    /// A pending connection was accepted.
    AcceptOk,
    /// Accepting failed, with the kind of the failure. A would-block kind
    /// means no connection is pending.
    AcceptErr(IoErrorKind),
    /// One non-blocking read from the accepted connection returned these
    /// bytes (possibly none).
    ReadOk(Vec<u8>),
    /// The read failed, with the kind of the failure.
    ReadErr(IoErrorKind),
    /// The whole response frame was written back.
    WriteOk,
    /// The write failed, with the kind of the failure.
    WriteErr(IoErrorKind),
}

/// What the engine waits for next: the operating-system call the embedding
/// application must perform, whose outcome it hands back as a
/// [`ServerEvent`].
#[derive(Debug)]
pub enum ServerPhase {
    /// Block on the readiness multiplexer.
    NeedPoll,
    /// Try to accept a pending connection, non-blockingly.
    NeedAccept,
    /// Read once from the accepted connection, non-blockingly, into a buffer
    /// of [`READ_BUF_LEN`] bytes.
    NeedRead,
    /// Write this response frame to the same connection; on would-block, spin
    /// and write the same frame again.
    NeedWrite(Vec<u8>),
    /// The drain invocation is over, with its result: `Ok` when all pending
    /// connections were drained or the cycle was abandoned on an accept or
    /// read failure, `Err` on the first fatal decode or write failure.
    Done(Result<(), IpcError>),
}

/// Whether an event can answer the call the phase asks for.
pub open spec fn event_fits(phase: ServerPhase, ev: ServerEvent) -> bool {
    match phase {
        ServerPhase::NeedPoll => ev is Polled,
        ServerPhase::NeedAccept => ev is AcceptOk || ev is AcceptErr,
        ServerPhase::NeedRead => ev is ReadOk || ev is ReadErr,
        ServerPhase::NeedWrite(_) => ev is WriteOk || ev is WriteErr,
        ServerPhase::Done(_) => false,
    }
}

/// What serving one received frame computes: if the frame decodes to a
/// command (equivalently, if some command encodes to exactly these bytes),
/// the response frame that command's processing produces and the context
/// after it; otherwise nothing.
pub open spec fn step_spec<C: IpcServerCommand>(buf: Seq<u8>, context: C::Context) -> Option<
    (Seq<u8>, C::Context),
> {
    if exists|c: C| (#[trigger] c.wire()) == buf {
        let c = choose|c: C| (#[trigger] c.wire()) == buf;
        let pr = c.process_spec(context);
        Some((pr.0.wire(), pr.1))
    } else {
        None
    }
}

/// Serves one received frame: decodes it, dispatches the command to the
/// caller's context, and encodes the response frame. Returns `None`, leaving
/// the context untouched, exactly when the frame decodes to no command.
pub fn handle_frame<C: IpcServerCommand>(buf: &[u8], context: &mut C::Context) -> (r: Option<
    Vec<u8>,
>)
    ensures
        match r {
            Some(f) => step_spec::<C>(buf@, *old(context)) == Some((f@, *final(context))),
            None => step_spec::<C>(buf@, *old(context)) is None && *final(context) == *old(
                context,
            ),
        },
{
    match C::decode(buf) {
        Some(c) => {
            let ghost gc = c;
            let resp = c.process(context);
            let frame = resp.encode();
            proof {
                assert(gc.wire() == buf@);
                let w = choose|x: C| (#[trigger] x.wire()) == buf@;
                C::lemma_wire_determines_process(w, gc, *old(context));
            }
            Some(frame)
        },
        None => None,
    }
}

/// How one engine step answers one event: the exact next phase and context
/// for every phase/event pair that [`event_fits`] admits.
pub open spec fn drain_post<C: IpcServerCommand>(
    phase: ServerPhase,
    ev: ServerEvent,
    ctx0: C::Context,
    r: ServerPhase,
    ctx1: C::Context,
) -> bool {
    match (phase, ev) {
        (ServerPhase::NeedPoll, ServerEvent::Polled) => r is NeedAccept && ctx1 == ctx0,
        (ServerPhase::NeedAccept, ServerEvent::AcceptOk) => r is NeedRead && ctx1 == ctx0,
        (ServerPhase::NeedAccept, ServerEvent::AcceptErr(_)) => r == ServerPhase::Done(
            Ok::<(), IpcError>(()),
        ) && ctx1 == ctx0,
        (ServerPhase::NeedRead, ServerEvent::ReadOk(buf)) => match step_spec::<C>(buf@, ctx0) {
            Some(pr) => (r matches ServerPhase::NeedWrite(f) && f@ == pr.0) && ctx1 == pr.1,
            None => r == ServerPhase::Done(Err::<(), IpcError>(IpcError::Decode)) && ctx1 == ctx0,
        },
        (ServerPhase::NeedRead, ServerEvent::ReadErr(_)) => r == ServerPhase::Done(
            Ok::<(), IpcError>(()),
        ) && ctx1 == ctx0,
        (ServerPhase::NeedWrite(_), ServerEvent::WriteOk) => r is NeedAccept && ctx1 == ctx0,
        (ServerPhase::NeedWrite(f), ServerEvent::WriteErr(k)) => ctx1 == ctx0 && if k
            is WouldBlock {
            r matches ServerPhase::NeedWrite(g) && g@ == f@
        } else {
            r == ServerPhase::Done(Err::<(), IpcError>(IpcError::Write(k)))
        },
        _ => false,
    }
}

/// The protocol engine of one server: the drain state machine, bound at
/// compile time to one command type. The listening socket, the multiplexer
/// and the buffers live with the embedding application, which performs the
/// call each phase asks for and hands the outcome back to [`IpcServer::handle_event`].
pub struct IpcServer<C: IpcServerCommand> {
    phase: ServerPhase,
    _command: PhantomData<C>,
}

impl<C: IpcServerCommand> IpcServer<C> {
    /// The engine's current phase.
    pub closed spec fn state(&self) -> ServerPhase {
        self.phase
    }

    /// Initializes a new server engine for a socket path at which a file does
    /// or does not already exist, together with the endpoint construction
    /// plan the embedding application must perform before the first drain.
    /// There is no dedicated server thread: the application drives the engine
    /// by polling.
    pub fn new(path_exists: bool) -> (r: (IpcServer<C>, Vec<SetupStep>))
        ensures
            r.0.state() is NeedPoll,
            r.1@ == setup_plan_spec(path_exists),
    {
        let engine = IpcServer { phase: ServerPhase::NeedPoll, _command: PhantomData };
        (engine, setup_plan(path_exists))
    }

    /// Begins a new drain invocation: the engine blocks on the multiplexer
    /// anew.
    pub fn begin_drain(&mut self)
        ensures
            final(self).state() is NeedPoll,
    {
        self.phase = ServerPhase::NeedPoll;
    }

    /// A borrow of the current phase, which tells the embedding application
    /// which operating-system call to perform next.
    pub fn current(&self) -> (r: &ServerPhase)
        ensures
            *r == self.state(),
    {
        &self.phase
    }

    /// Advances the drain by one observed event. One whole drain invocation
    /// is a run from [`ServerPhase::NeedPoll`] to [`ServerPhase::Done`]:
    /// pending connections are accepted and served strictly one at a time,
    /// a would-block on accept ends the cycle cleanly, a decode failure or a
    /// non-retryable write failure is fatal to the whole invocation, and a
    /// would-block on write retries the same frame.
    pub fn handle_event(&mut self, ev: ServerEvent, context: &mut C::Context)
        requires
            event_fits(old(self).state(), ev),
        ensures
            drain_post::<C>(
                old(self).state(),
                ev,
                *old(context),
                final(self).state(),
                *final(context),
            ),
    {
        match ev {
            ServerEvent::Polled => {
                self.phase = ServerPhase::NeedAccept;
            },
            ServerEvent::AcceptOk => {
                self.phase = ServerPhase::NeedRead;
            },
            ServerEvent::AcceptErr(_) => {
                self.phase = ServerPhase::Done(Ok(()));
            },
            ServerEvent::ReadOk(buf) => {
                match handle_frame::<C>(buf.as_slice(), context) {
                    Some(frame) => {
                        self.phase = ServerPhase::NeedWrite(frame);
                    },
                    None => {
                        self.phase = ServerPhase::Done(Err(IpcError::Decode));
                    },
                }
            },
            ServerEvent::ReadErr(_) => {
                self.phase = ServerPhase::Done(Ok(()));
            },
            ServerEvent::WriteOk => {
                self.phase = ServerPhase::NeedAccept;
            },
            ServerEvent::WriteErr(k) => {
                if would_block(&k) {
                    // The frame is kept: the application spins and writes it
                    // again.
                } else {
                    self.phase = ServerPhase::Done(Err(IpcError::Write(k)));
                }
            },
        }
    }
}

} // verus!
