use vstd::prelude::*;

use crate::client::response_of;
use crate::command::IpcServerCommand;
use crate::server::step_spec;
use crate::wire::Wire;

verus! {

/// Round trip: for any command, the server's handling of that command's frame
/// yields exactly the frame of the response the command's own processing
/// produces, with the context mutation applied exactly once; and the client
/// decodes that frame back to exactly that response.
pub proof fn lemma_round_trip<C: IpcServerCommand>(c: C, context: C::Context)
    ensures
        ({
            let (resp, after) = c.process_spec(context);
            &&& step_spec::<C>(c.wire(), context) == Some((resp.wire(), after))
            &&& response_of::<C>(resp.wire()) == Some(resp)
        }),
{
    let (resp, after) = c.process_spec(context);
    // The command itself witnesses that its frame decodes; any other witness
    // processes alike.
    assert(c.wire() == c.wire());
    let w = choose|x: C| (#[trigger] x.wire()) == c.wire();
    C::lemma_wire_determines_process(w, c, context);
    // The response itself witnesses that its frame decodes, and it is the
    // only value with that frame.
    assert(resp.wire() == resp.wire());
    let rw = choose|x: C::Response| (#[trigger] x.wire()) == resp.wire();
    C::lemma_response_wire_injective(rw, resp);
}

/// Sequential isolation: two commands served back to back, each on its own
/// connection, each get their own response — the frame written back for each
/// is the frame of that command's own processing result, with the first
/// command's context changes visible to the second.
pub proof fn lemma_sequential_isolation<C: IpcServerCommand>(c1: C, c2: C, context: C::Context)
    ensures
        ({
            let (r1, ctx1) = c1.process_spec(context);
            let (r2, ctx2) = c2.process_spec(ctx1);
            &&& step_spec::<C>(c1.wire(), context) == Some((r1.wire(), ctx1))
            &&& step_spec::<C>(c2.wire(), ctx1) == Some((r2.wire(), ctx2))
            &&& response_of::<C>(r1.wire()) == Some(r1)
            &&& response_of::<C>(r2.wire()) == Some(r2)
        }),
{
    lemma_round_trip(c1, context);
    lemma_round_trip(c2, c1.process_spec(context).1);
}

/// Idempotent context reads: a command whose processing leaves the context
/// unchanged, served twice, produces two structurally identical responses.
pub proof fn lemma_idempotent_reads<C: IpcServerCommand>(c: C, context: C::Context)
    requires
        c.process_spec(context).1 == context,
    ensures
        ({
            let resp = c.process_spec(context).0;
            &&& step_spec::<C>(c.wire(), context) == Some((resp.wire(), context))
            &&& step_spec::<C>(c.wire(), c.process_spec(context).1) == Some((resp.wire(), context))
        }),
{
    lemma_round_trip(c, context);
}

} // verus!
