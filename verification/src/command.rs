use vstd::prelude::*;

use crate::wire::Wire;

verus! {

/// The contract any application-defined command type satisfies. A command is
/// a serializable value carrying all data for one unit of work; it declares
/// the response type written back to its sender and the type of the
/// caller-owned mutable context each dispatch receives.
///
/// Dispatch must be a function of the received frame and the context alone:
/// the two proof obligations pin down that a frame determines the outcome of
/// processing, and that a response frame determines the response value. They
/// make the request/response round trip exact (see [`crate::laws`]).
pub trait IpcServerCommand: Wire {
    /// The response written back to exactly the connection that sent the
    /// triggering command.
    type Response: Wire;

    /// The caller-owned mutable state passed by exclusive reference into each
    /// processing call. The server never stores or inspects it.
    type Context;

    /// What processing computes: the response and the context after the call,
    /// as a function of the command and the context it was dispatched with.
    spec fn process_spec(self, context: Self::Context) -> (Self::Response, Self::Context);

    /// Commands with the same frame process alike, so the received frame
    /// alone determines the outcome of dispatch.
    proof fn lemma_wire_determines_process(a: Self, b: Self, context: Self::Context)
        requires
            a.wire() == b.wire(),
        ensures
            a.process_spec(context) == b.process_spec(context),
    ;

    /// A response frame determines the response value.
    proof fn lemma_response_wire_injective(a: Self::Response, b: Self::Response)
        requires
            a.wire() == b.wire(),
        ensures
            a == b,
    ;

    /// Performs one unit of work: consumes the command, may mutate the
    /// caller's context, and produces the response. Infallible at this layer;
    /// any failure is encoded as a variant of the response type by the
    /// application.
    fn process(self, context: &mut Self::Context) -> (r: Self::Response)
        ensures
            (r, *final(context)) == self.process_spec(*old(context)),
    ;
}

} // verus!
