//! Interpreting what the package registry answered.
//!
//! The registry is queried over the network for the latest published version
//! of a package; the transport lives outside this crate. Here the raw
//! outcome — whether the query got an answer at all, and the answer's JSON
//! body — is folded into a three-way result. An unreachable registry is a
//! normal condition, kept distinct from a reachable registry that does not
//! know the package.

use vstd::prelude::*;

verus! {

/// What the registry reported for a package.
pub enum RegistryLookupResult {
    /// The registry answered with the latest published version string.
    Found(String),
    /// The registry answered, but reported no published version.
    NotFound,
    /// The registry could not be reached or gave no usable answer.
    Unreachable,
}

/// The mathematical reading of a lookup result.
pub enum RegistryView {
    Found(Seq<char>),
    NotFound,
    Unreachable,
}

impl View for RegistryLookupResult {
    type V = RegistryView;

    open spec fn view(&self) -> RegistryView {
        match self {
            RegistryLookupResult::Found(s) => RegistryView::Found(s@),
            RegistryLookupResult::NotFound => RegistryView::NotFound,
            RegistryLookupResult::Unreachable => RegistryView::Unreachable,
        }
    }
}

/// The version string at `info.version` of a JSON document, if the bytes
/// parse as JSON and that member is a string; a function of the bytes alone.
pub uninterp spec fn json_info_version(body: Seq<u8>) -> Option<Seq<char>>;

/// Relies on `serde_json::from_slice`, `Value::get` and `Value::as_str`:
/// reads the string at `info.version` of the JSON document in `body`, and
/// what it reads depends on the bytes alone.
#[verifier::external_body]
fn extract_info_version(body: &[u8]) -> (r: Option<String>)
    ensures
        r matches Some(s) ==> json_info_version(body@) == Some(s@),
        r is None ==> json_info_version(body@) is None,
{
    let json: serde_json::Value = match serde_json::from_slice(body) {
        Ok(v) => v,
        Err(_) => return None,
    };
    json.get("info")?.get("version")?.as_str().map(|s| s.to_string())
}

/// Folds a raw registry answer into the three-way lookup result: no answer
/// at all is `Unreachable`; an answer without a readable `info.version`
/// string is `NotFound`; otherwise the version is `Found`.
pub fn interpret_registry_response(reachable: bool, body: &[u8]) -> (r: RegistryLookupResult)
    ensures
        !reachable ==> r@ is Unreachable,
        reachable ==> match json_info_version(body@) {
            Some(v) => r@ == RegistryView::Found(v),
            None => r@ is NotFound,
        },
{
    if !reachable {
        return RegistryLookupResult::Unreachable;
    }
    match extract_info_version(body) {
        Some(v) => RegistryLookupResult::Found(v),
        None => RegistryLookupResult::NotFound,
    }
}

} // verus!
