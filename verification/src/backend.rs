//! Build backend selection: a project is built either with the native
//! compilation toolchain or as a pure source distribution.
//!
//! The decision is a pure function of a filesystem snapshot: the caller
//! reports whether the fixed marker paths exist, and the selector decides.

use vstd::prelude::*;

verus! {

/// Which toolchain builds and uploads the project's artifacts.
#[derive(Clone, Copy, PartialEq, Eq, Structural, Debug)]
pub enum BackendKind {
    /// A native-compiled project: built and uploaded with the native toolchain.
    Native,
    /// A pure source project: built and uploaded with the generic packaging tools.
    Source,
}

/// A project counts as native only when both markers are present: the
/// native-build manifest file and the native-build output directory.
/// Any other combination is a source project, so that a partially
/// initialized native project is not misclassified.
pub fn is_rust_python_project(manifest_exists: bool, wheels_dir_exists: bool) -> (r: bool)
    ensures
        r == (manifest_exists && wheels_dir_exists),
{
    manifest_exists && wheels_dir_exists
}

/// Selects the backend from an explicit native hint and the two marker checks.
/// The hint forces the native backend; otherwise both markers are required.
pub fn select_backend(native_hint: bool, manifest_exists: bool, wheels_dir_exists: bool) -> (r: BackendKind)
    ensures
        r == BackendKind::Native <==> (native_hint || (manifest_exists && wheels_dir_exists)),
{
    if native_hint || is_rust_python_project(manifest_exists, wheels_dir_exists) {
        BackendKind::Native
    } else {
        BackendKind::Source
    }
}

/// The directory a backend's artifacts land in: the native toolchain's wheel
/// output directory, or the generic distribution directory.
pub fn artifact_dir(kind: BackendKind) -> (r: &'static str)
    ensures
        kind == BackendKind::Native ==> r@ == "target/wheels"@,
        kind == BackendKind::Source ==> r@ == "dist"@,
{
    match kind {
        BackendKind::Native => "target/wheels",
        BackendKind::Source => "dist",
    }
}

} // verus!
