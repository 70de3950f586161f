//! Version resolution: reading the project's name and version from its
//! configuration document, deciding from the registry's answer whether a
//! bump is required, computing the bumped version, and rewriting the single
//! version value in the document.
//!
//! The configuration document is a TOML text with a top-level table keyed
//! `package` (native-style project) or `project` (source-style), holding
//! string fields `name` and `version`. Reading and rewriting the document is
//! delegated to the `toml_edit` crate behind trusted wrappers from plain
//! values to plain values; everything decided on top of them is verified.

use vstd::prelude::*;
use crate::registry::{RegistryLookupResult, RegistryView};
use crate::version::{
    normalized, version_repr, spec_bump, bump_fits, parse_version, try_bump, version_string,
    BumpLevel,
};

verus! {

// ---------------------------------------------------------------------------
// The trusted reading of the configuration document
// ---------------------------------------------------------------------------

/// Whether a text parses as a TOML document; a function of the text alone.
pub uninterp spec fn toml_parses(content: Seq<char>) -> bool;

/// The string value at `[table] key` of a TOML text, if the text parses,
/// the top-level entry `table` is a table, and `key` holds a string there;
/// a function of the text alone.
pub uninterp spec fn toml_field(content: Seq<char>, table: Seq<char>, key: Seq<char>) -> Option<
    Seq<char>,
>;

/// The TOML text after replacing the value at `[table] key` with the string
/// `v`, everything else kept; a function of the arguments alone.
pub uninterp spec fn toml_set_field(
    content: Seq<char>,
    table: Seq<char>,
    key: Seq<char>,
    v: Seq<char>,
) -> Seq<char>;

/// The outcome of looking up one string field of the document.
enum FieldRead {
    /// The text is not a well-formed TOML document.
    Unparsable,
    /// The document is well-formed but holds no string at `[table] key`.
    Missing,
    /// The string at `[table] key`.
    Value(String),
}

/// Relies on `toml_edit::DocumentMut`'s `FromStr`, `Table::get`, `Item::get`
/// and `Item::as_str`: parses the text and reads the string at `[table] key`.
#[verifier::external_body]
fn read_field(content: &str, table: &str, key: &str) -> (r: FieldRead)
    ensures
        r is Unparsable <==> !toml_parses(content@),
        r is Missing <==> (toml_parses(content@) && toml_field(content@, table@, key@) is None),
        r matches FieldRead::Value(s) ==> toml_field(content@, table@, key@) == Some(s@),
{
    let doc: toml_edit::DocumentMut = match content.parse() {
        Ok(d) => d,
        Err(_) => return FieldRead::Unparsable,
    };
    match doc.get(table).and_then(|t| t.get(key)).and_then(|i| i.as_str()) {
        Some(s) => FieldRead::Value(s.to_string()),
        None => FieldRead::Missing,
    }
}

/// Relies on `toml_edit`'s format-preserving editing: parses the text,
/// replaces the value at `[table] key` with the string `v`, and renders the
/// document back, keeping all unrelated content. The result still parses,
/// reads back `v` at `[table] key`, and reads back every other string field
/// unchanged.
#[verifier::external_body]
fn write_field(content: &str, table: &str, key: &str, v: &str) -> (r: String)
    requires
        toml_field(content@, table@, key@) is Some,
    ensures
        r@ == toml_set_field(content@, table@, key@, v@),
        toml_parses(r@),
        toml_field(r@, table@, key@) == Some(v@),
        forall|t2: Seq<char>, k2: Seq<char>|
            t2 != table@ || k2 != key@ ==> #[trigger] toml_field(r@, t2, k2) == toml_field(
                content@,
                t2,
                k2,
            ),
{
    let mut doc: toml_edit::DocumentMut = match content.parse() {
        Ok(d) => d,
        Err(_) => return content.to_string(),
    };
    doc[table][key] = toml_edit::value(v);
    doc.to_string()
}

// ---------------------------------------------------------------------------
// The decision
// ---------------------------------------------------------------------------

/// The top-level table that holds the project metadata: `package` for a
/// native-style document, `project` for a source-style one.
pub open spec fn table_key(is_rust: bool) -> Seq<char> {
    if is_rust {
        "package"@
    } else {
        "project"@
    }
}

/// What version resolution decided to do.
#[derive(Clone, Copy, PartialEq, Eq, Structural, Debug)]
pub enum BumpPlan {
    /// The local version stands; nothing is written.
    Keep,
    /// The version is bumped at the given level and written back.
    Bump(BumpLevel),
}

/// The bump decision: a forced level always bumps at that level; otherwise a
/// bump (at the default level, micro) is required exactly when the registry
/// reports the locally recorded version as already published. An
/// unreachable registry, a package the registry does not know, and a
/// published version different from the local one all keep the local
/// version.
pub open spec fn spec_plan(
    registry: RegistryView,
    local: Seq<char>,
    forced: Option<BumpLevel>,
) -> BumpPlan {
    match forced {
        Some(level) => BumpPlan::Bump(level),
        None => match registry {
            RegistryView::Found(remote) => if remote == local {
                BumpPlan::Bump(BumpLevel::Micro)
            } else {
                BumpPlan::Keep
            },
            _ => BumpPlan::Keep,
        },
    }
}

/// Decides whether and how to bump, from the registry's answer, the locally
/// recorded version string, and the forced level.
pub fn plan_resolution(
    registry: &RegistryLookupResult,
    local: &str,
    forced: Option<BumpLevel>,
) -> (r: BumpPlan)
    ensures
        r == spec_plan(registry@, local@, forced),
{
    match forced {
        Some(level) => BumpPlan::Bump(level),
        None => match registry {
            RegistryLookupResult::Found(remote) => {
                if crate::strutil::str_eq(remote.as_str(), local) {
                    BumpPlan::Bump(BumpLevel::Micro)
                } else {
                    BumpPlan::Keep
                }
            },
            _ => BumpPlan::Keep,
        },
    }
}

/// A version already published under the local version string, with no
/// forced level, bumps at the default level, micro.
pub proof fn lemma_published_version_bumps_micro(local: Seq<char>)
    ensures
        spec_plan(RegistryView::Found(local), local, None) == BumpPlan::Bump(BumpLevel::Micro),
{
}

/// An unreachable registry with no forced level keeps the local version, so
/// resolution returns it unchanged and rewrites nothing; a registry that
/// does not know the package behaves the same way.
pub proof fn lemma_unreachable_registry_keeps_version(local: Seq<char>)
    ensures
        spec_plan(RegistryView::Unreachable, local, None) == BumpPlan::Keep,
        spec_plan(RegistryView::NotFound, local, None) == BumpPlan::Keep,
{
}

// ---------------------------------------------------------------------------
// Resolution over the document
// ---------------------------------------------------------------------------

/// Why resolution rejected a configuration document.
#[derive(Clone, Copy, PartialEq, Eq, Structural, Debug)]
pub enum ResolveError {
    /// The document is not well-formed TOML.
    NoParse,
    /// The document has no string field `name` in its metadata table.
    MissingName,
    /// The document has no string field `version` in its metadata table.
    MissingVersion,
    /// Bumping would take the target component past its greatest value.
    VersionOverflow,
}

/// What version resolution returned.
pub enum Resolution {
    /// No bump was required: the local version, with the document untouched.
    Unchanged { version: String },
    /// The bumped version, and the document with exactly the version value
    /// rewritten, ready to be persisted.
    Updated { version: String, content: String },
}

/// Reads the project's name and version strings from the configuration
/// document.
pub fn read_project_meta(content: &str, is_rust: bool) -> (r: Result<
    (String, String),
    ResolveError,
>)
    ensures
        ({
            let table = table_key(is_rust);
            &&& (r matches Err(e) && e == ResolveError::NoParse <==> !toml_parses(content@))
            &&& (r matches Err(e) && e == ResolveError::MissingName <==> toml_parses(content@)
                && toml_field(content@, table, "name"@) is None)
            &&& (r matches Err(e) && e == ResolveError::MissingVersion <==> toml_parses(content@)
                && toml_field(content@, table, "name"@) is Some && toml_field(
                content@,
                table,
                "version"@,
            ) is None)
            &&& (r matches Ok(nv) ==> toml_field(content@, table, "name"@) == Some(nv.0@)
                && toml_field(content@, table, "version"@) == Some(nv.1@))
            &&& (r is Ok <==> toml_parses(content@) && toml_field(content@, table, "name"@) is Some
                && toml_field(content@, table, "version"@) is Some)
        }),
{
    let table = if is_rust {
        "package"
    } else {
        "project"
    };
    let name = match read_field(content, table, "name") {
        FieldRead::Unparsable => return Err(ResolveError::NoParse),
        FieldRead::Missing => return Err(ResolveError::MissingName),
        FieldRead::Value(s) => s,
    };
    let version = match read_field(content, table, "version") {
        FieldRead::Unparsable => return Err(ResolveError::NoParse),
        FieldRead::Missing => return Err(ResolveError::MissingVersion),
        FieldRead::Value(s) => s,
    };
    Ok((name, version))
}

/// Resolves the next version against the registry's answer and, when a bump
/// is required, rewrites the single version value in the document.
///
/// The registry answer is taken as an argument: querying the registry is the
/// caller's business, and resolution is a function of what it answered. When
/// the plan keeps the local version the document is returned untouched, as
/// `Unchanged` — nothing is to be written. When a bump is planned, the local
/// version string is normalized to three numeric components (a failed
/// numeric parse of a component is tolerated as zero), bumped at the planned
/// level, and written back into the document text, all other content kept.
pub fn resolve_document(
    content: &str,
    is_rust: bool,
    registry: &RegistryLookupResult,
    forced: Option<BumpLevel>,
) -> (r: Result<Resolution, ResolveError>)
    ensures
        ({
            let table = table_key(is_rust);
            &&& (r matches Err(e) && e == ResolveError::NoParse <==> !toml_parses(content@))
            &&& (r matches Err(e) && e == ResolveError::MissingName <==> toml_parses(content@)
                && toml_field(content@, table, "name"@) is None)
            &&& (r matches Err(e) && e == ResolveError::MissingVersion <==> toml_parses(content@)
                && toml_field(content@, table, "name"@) is Some && toml_field(
                content@,
                table,
                "version"@,
            ) is None)
            &&& (toml_parses(content@) && toml_field(content@, table, "name"@) is Some
                ==> match toml_field(content@, table, "version"@) {
                None => true,
                Some(local) => match spec_plan(registry@, local, forced) {
                    BumpPlan::Keep => r matches Ok(res) && res matches Resolution::Unchanged {
                        version,
                    } && version@ == local,
                    BumpPlan::Bump(level) => {
                        if bump_fits(normalized(local), level) {
                            let next = version_repr(spec_bump(normalized(local), level));
                            &&& r matches Ok(res)
                            &&& res matches Resolution::Updated { version, content: rewritten }
                            &&& version@ == next
                            &&& rewritten@ == toml_set_field(content@, table, "version"@, next)
                            &&& toml_field(rewritten@, table, "version"@) == Some(next)
                            &&& forall|t2: Seq<char>, k2: Seq<char>|
                                t2 != table || k2 != "version"@ ==> #[trigger] toml_field(
                                    rewritten@,
                                    t2,
                                    k2,
                                ) == toml_field(content@, t2, k2)
                        } else {
                            r matches Err(e) && e == ResolveError::VersionOverflow
                        }
                    },
                },
            })
        }),
{
    let table = if is_rust {
        "package"
    } else {
        "project"
    };
    match read_field(content, table, "name") {
        FieldRead::Unparsable => return Err(ResolveError::NoParse),
        FieldRead::Missing => return Err(ResolveError::MissingName),
        FieldRead::Value(_) => (),
    }
    let local = match read_field(content, table, "version") {
        FieldRead::Unparsable => return Err(ResolveError::NoParse),
        FieldRead::Missing => return Err(ResolveError::MissingVersion),
        FieldRead::Value(s) => s,
    };
    match plan_resolution(registry, local.as_str(), forced) {
        BumpPlan::Keep => Ok(Resolution::Unchanged { version: local }),
        BumpPlan::Bump(level) => {
            let parsed = parse_version(local.as_str());
            match try_bump(&parsed, level) {
                None => Err(ResolveError::VersionOverflow),
                Some(bumped) => {
                    let next = version_string(&bumped);
                    let rewritten = write_field(content, table, "version", next.as_str());
                    Ok(Resolution::Updated { version: next, content: rewritten })
                },
            }
        },
    }
}

} // verus!
