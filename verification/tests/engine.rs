use tgcalls::engine::{async_result, check_version, rc_result, TgCalls};
use tgcalls::errors::CallError;

// The engine's own version query needs the native library, which tests do
// not load; what is checked here is that only a non-empty version passes
// the startup check against the pinned one.
#[test]
fn version_is_non_empty() {
    let pinned = TgCalls::pinned_version();
    assert!(!pinned.is_empty());
    assert!(check_version(&pinned, "").is_err());
    assert_eq!(check_version(&pinned, &pinned), Ok(()));
}

#[test]
fn pinned_version_is_the_one_built_against() {
    assert_eq!(TgCalls::pinned_version(), "2.2.1");
}

#[test]
fn matching_engine_version_passes() {
    assert_eq!(check_version("2.2.1", "2.2.1"), Ok(()));
}

#[test]
fn local_engine_build_is_not_checked() {
    assert_eq!(check_version("local", "9.9.9"), Ok(()));
}

#[test]
fn mismatched_engine_version_is_refused() {
    let err = check_version("2.2.1", "2.3.0").unwrap_err();
    assert_eq!(
        err,
        CallError::VersionMismatch { compiled: "2.2.1".to_string(), loaded: "2.3.0".to_string() }
    );
    assert_eq!(
        err.message(),
        "ntgcalls version mismatch: compiled against 2.2.1, loaded 2.3.0. Upgrade via the tgcalls crate. See docs/upgrade.md."
    );
}

#[test]
fn negative_status_codes_are_errors() {
    assert_eq!(rc_result(0), Ok(()));
    assert_eq!(rc_result(5), Ok(()));
    assert_eq!(rc_result(-101), Err(CallError::ConnectionNotFound));
    assert_eq!(rc_result(-999), Err(CallError::Unrecognized(-999)));
}

#[test]
fn async_outcome_prefers_dispatch_failure() {
    assert_eq!(async_result(-106, -302), Err(CallError::InvalidParams));
    assert_eq!(async_result(0, -302), Err(CallError::Connection));
    assert_eq!(async_result(0, 0), Ok(()));
}

#[test]
fn handle_is_kept() {
    let t = TgCalls::from_handle(42);
    assert_eq!(t.handle(), 42);
}
