use vstd::prelude::*;

verus! {

/// Failures of the executor, the event bridge and the orchestrator.
#[derive(Debug, Clone, Copy, PartialEq, Eq, Structural)]
pub enum Error {
    /// A non-zero status returned by the engine.
    CErr(i32),
    /// The engine thread or a child process could not be started.
    Spawn,
    /// A bounded wait elapsed without confirmation.
    Timeout,
    /// The resource was already torn down.
    Closed,
}

/// Maps an engine status code to a result: zero is success, anything else is
/// reported as `CErr` with the code.
pub fn ctry(code: i32) -> (r: Result<(), Error>)
    ensures
        code == 0 ==> r is Ok,
        code != 0 ==> r == Err::<(), Error>(Error::CErr(code)),
{
    if code == 0 {
        Ok(())
    } else {
        Err(Error::CErr(code))
    }
}

} // verus!
