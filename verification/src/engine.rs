//! The engine instance handle and the version check made when one starts.

use vstd::prelude::*;

use crate::errors::CallError;

verus! {

/// The engine version this library is built against.
pub open spec fn pinned_version() -> Seq<char> {
    "2.2.1"@
}

/// The build marker of an engine linked from a local directory, whose
/// version is unknown at build time and is not checked.
pub open spec fn local_build_marker() -> Seq<char> {
    "local"@
}

/// The startup check: an engine built as pinned (`bundled`, unless it is
/// the local-build marker) must report that same version at run time;
/// otherwise the error names both versions.
pub open spec fn spec_version_check(bundled: Seq<char>, runtime: Seq<char>) -> bool {
    bundled == local_build_marker() || runtime == bundled
}

pub fn check_version(bundled: &str, runtime: &str) -> (r: Result<(), CallError>)
    ensures
        r is Ok <==> spec_version_check(bundled@, runtime@),
        r matches Err(e) ==> (e matches CallError::VersionMismatch { compiled, loaded }
            && compiled@ == bundled@ && loaded@ == runtime@),
{
    let b = String::from_str(bundled);
    let local = String::from_str("local");
    if b == local {
        return Ok(());
    }
    let rt = String::from_str(runtime);
    if rt == b {
        return Ok(());
    }
    Err(CallError::VersionMismatch { compiled: b, loaded: rt })
}

/// An engine that passes the startup check against the pinned version
/// reports a non-empty version string.
pub proof fn accepted_version_is_non_empty(runtime: Seq<char>)
    requires
        spec_version_check(pinned_version(), runtime),
    ensures
        runtime.len() > 0,
{
    reveal_strlit("2.2.1");
    reveal_strlit("local");
    assert(pinned_version() != local_build_marker()) by {
        assert(pinned_version()[0] != local_build_marker()[0]);
    }
}

/// What an engine status code means: negative codes are errors, anything
/// else is success.
pub fn rc_result(rc: i32) -> (r: Result<(), CallError>)
    ensures
        rc < 0 ==> r == Err::<(), CallError>(CallError::spec_from_code(rc)),
        rc >= 0 ==> r is Ok,
{
    if rc < 0 {
        Err(CallError::from_code(rc))
    } else {
        Ok(())
    }
}

/// The outcome of an asynchronous engine operation: a refused dispatch
/// fails with its code; otherwise the code the operation completed with
/// decides.
pub fn async_result(dispatch_rc: i32, completion_code: i32) -> (r: Result<(), CallError>)
    ensures
        dispatch_rc < 0 ==> r == Err::<(), CallError>(CallError::spec_from_code(dispatch_rc)),
        dispatch_rc >= 0 && completion_code < 0 ==> r == Err::<(), CallError>(
            CallError::spec_from_code(completion_code),
        ),
        dispatch_rc >= 0 && completion_code >= 0 ==> r is Ok,
{
    rc_result(dispatch_rc)?;
    rc_result(completion_code)
}

/// A handle to a running engine instance.
#[derive(Debug, Clone, Copy, PartialEq, Eq, Structural)]
pub struct TgCalls {
    handle: usize,
}

impl TgCalls {
    pub closed spec fn spec_handle(self) -> usize {
        self.handle
    }

    /// Wraps the engine's instance handle.
    pub fn from_handle(handle: usize) -> (r: TgCalls)
        ensures
            r.spec_handle() == handle,
    {
        TgCalls { handle }
    }

    pub fn handle(&self) -> (r: usize)
        ensures
            r == self.spec_handle(),
    {
        self.handle
    }

    /// The engine version this library is built against (not the version
    /// of whichever engine library is loaded, which only the engine itself
    /// can report).
    pub fn pinned_version() -> (r: String)
        ensures
            r@ == pinned_version(),
    {
        let v = String::from_str("2.2.1");
        proof {
            reveal_strlit("2.2.1");
        }
        v
    }
}

} // verus!
