use vstd::prelude::*;

verus! {

/// Owner read/write only: the permission bits applied to the socket file
/// immediately after binding, so no other principal can connect.
pub const SOCKET_MODE: u32 = 0o600;

/// One filesystem or socket step of endpoint construction. The embedding
/// application performs the steps against the operating system, in order,
/// stopping at the first failure, which is fatal to construction.
#[derive(Clone, Copy, Debug, PartialEq, Eq, Structural)]
pub enum SetupStep {
    /// Delete the file already sitting at the socket path (assumed to be a
    /// stale socket of a previous run).
    RemoveFile,
    /// Bind a fresh listening domain socket at the path.
    Bind,
    /// Set the socket file's permission bits to the given mode.
    SetPermissions(u32),
    /// Register the listener with the readiness multiplexer for readable
    /// events.
    RegisterReadable,
}

/// The construction plan for a socket endpoint: a pre-existing file at the
/// path is deleted first, then the socket is bound, narrowed to owner-only
/// access, and registered with the multiplexer.
pub open spec fn setup_plan_spec(path_exists: bool) -> Seq<SetupStep> {
    if path_exists {
        seq![
            SetupStep::RemoveFile,
            SetupStep::Bind,
            SetupStep::SetPermissions(SOCKET_MODE),
            SetupStep::RegisterReadable,
        ]
    } else {
        seq![
            SetupStep::Bind,
            SetupStep::SetPermissions(SOCKET_MODE),
            SetupStep::RegisterReadable,
        ]
    }
}

/// Computes the endpoint construction plan for a path at which a file does or
/// does not already exist.
pub fn setup_plan(path_exists: bool) -> (r: Vec<SetupStep>)
    ensures
        r@ == setup_plan_spec(path_exists),
{
    let mut v: Vec<SetupStep> = Vec::new();
    if path_exists {
        v.push(SetupStep::RemoveFile);
    }
    v.push(SetupStep::Bind);
    v.push(SetupStep::SetPermissions(SOCKET_MODE));
    v.push(SetupStep::RegisterReadable);
    proof {
        assert(v@ =~= setup_plan_spec(path_exists));
    }
    v
}

/// Permission enforcement: every construction plan binds exactly once, and
/// the step right after the bind narrows the socket file's permission bits to
/// owner read/write only.
pub proof fn lemma_permissions_narrowed(path_exists: bool)
    ensures
        ({
            let plan = setup_plan_spec(path_exists);
            let b: int = if path_exists {
                1
            } else {
                0
            };
            &&& plan[b] == SetupStep::Bind
            &&& plan[b + 1] == SetupStep::SetPermissions(SOCKET_MODE)
            &&& forall|j: int| 0 <= j < plan.len() && j != b ==> plan[j] != SetupStep::Bind
        }),
{
}

/// Stale file replacement: when a file already exists at the target path, the
/// plan removes it before anything else, and a bind at the path follows
/// either way, so construction ends with a fresh socket bound at the path.
pub proof fn lemma_stale_file_replaced(path_exists: bool)
    ensures
        path_exists ==> setup_plan_spec(path_exists)[0] == SetupStep::RemoveFile,
        exists|i: int|
            0 <= i < setup_plan_spec(path_exists).len() && setup_plan_spec(path_exists)[i]
                == SetupStep::Bind,
{
    let b: int = if path_exists {
        1
    } else {
        0
    };
    assert(setup_plan_spec(path_exists)[b] == SetupStep::Bind);
}

} // verus!
