use hajime::resolver::{plan_resolution, read_project_meta, resolve_document};
use hajime::{BumpLevel, BumpPlan, RegistryLookupResult, Resolution, ResolveError};

const PYPROJECT: &str = "[project]\nname = \"foo\"\nversion = \"0.1.0\"\n\n[tool.extra]\nkeep = \"yes\"\n";

#[test]
fn plan_keeps_when_registry_unreachable_and_nothing_forced() {
    let plan = plan_resolution(&RegistryLookupResult::Unreachable, "0.1.0", None);
    assert_eq!(plan, BumpPlan::Keep);
}

#[test]
fn plan_keeps_when_package_unknown_and_nothing_forced() {
    let plan = plan_resolution(&RegistryLookupResult::NotFound, "0.1.0", None);
    assert_eq!(plan, BumpPlan::Keep);
}

#[test]
fn plan_bumps_micro_when_local_version_already_published() {
    let registry = RegistryLookupResult::Found("0.1.0".to_string());
    let plan = plan_resolution(&registry, "0.1.0", None);
    assert_eq!(plan, BumpPlan::Bump(BumpLevel::Micro));
}

#[test]
fn plan_keeps_when_published_version_differs() {
    let registry = RegistryLookupResult::Found("0.2.0".to_string());
    let plan = plan_resolution(&registry, "0.1.0", None);
    assert_eq!(plan, BumpPlan::Keep);
}

#[test]
fn plan_obeys_forced_level_whatever_the_registry_says() {
    let registry = RegistryLookupResult::Found("0.2.0".to_string());
    let plan = plan_resolution(&registry, "0.1.0", Some(BumpLevel::Macro));
    assert_eq!(plan, BumpPlan::Bump(BumpLevel::Macro));
}

#[test]
fn meta_reads_name_and_version() {
    let (name, version) = read_project_meta(PYPROJECT, false).unwrap();
    assert_eq!(name, "foo");
    assert_eq!(version, "0.1.0");
}

#[test]
fn meta_reads_package_table_for_native_projects() {
    let cargo = "[package]\nname = \"bar\"\nversion = \"1.0.0\"\n";
    let (name, version) = read_project_meta(cargo, true).unwrap();
    assert_eq!(name, "bar");
    assert_eq!(version, "1.0.0");
}

#[test]
fn meta_rejects_unparsable_document() {
    assert_eq!(read_project_meta("not [ toml", false), Err(ResolveError::NoParse));
}

#[test]
fn meta_rejects_missing_name() {
    let content = "[project]\nversion = \"0.1.0\"\n";
    assert_eq!(read_project_meta(content, false), Err(ResolveError::MissingName));
}

#[test]
fn meta_rejects_missing_version() {
    let content = "[project]\nname = \"foo\"\n";
    assert_eq!(read_project_meta(content, false), Err(ResolveError::MissingVersion));
}

#[test]
fn unreachable_registry_returns_local_version_unchanged() {
    let r = resolve_document(PYPROJECT, false, &RegistryLookupResult::Unreachable, None);
    match r.unwrap() {
        Resolution::Unchanged { version } => assert_eq!(version, "0.1.0"),
        Resolution::Updated { .. } => panic!("no rewrite was called for"),
    }
}

#[test]
fn published_local_version_bumps_micro_by_default() {
    let registry = RegistryLookupResult::Found("0.1.0".to_string());
    let r = resolve_document(PYPROJECT, false, &registry, None);
    match r.unwrap() {
        Resolution::Updated { version, .. } => assert_eq!(version, "0.1.1"),
        Resolution::Unchanged { .. } => panic!("a bump was called for"),
    }
}

#[test]
fn rewrite_changes_only_the_version_value() {
    let registry = RegistryLookupResult::Found("0.1.0".to_string());
    let r = resolve_document(PYPROJECT, false, &registry, None);
    match r.unwrap() {
        Resolution::Updated { version, content } => {
            assert_eq!(version, "0.1.1");
            assert_eq!(
                content,
                "[project]\nname = \"foo\"\nversion = \"0.1.1\"\n\n[tool.extra]\nkeep = \"yes\"\n"
            );
        }
        Resolution::Unchanged { .. } => panic!("a bump was called for"),
    }
}

#[test]
fn forced_level_bumps_even_when_registry_is_unreachable() {
    let r = resolve_document(
        PYPROJECT,
        false,
        &RegistryLookupResult::Unreachable,
        Some(BumpLevel::Macro),
    );
    match r.unwrap() {
        Resolution::Updated { version, content } => {
            assert_eq!(version, "1.0.0");
            assert!(content.contains("version = \"1.0.0\""));
        }
        Resolution::Unchanged { .. } => panic!("a bump was called for"),
    }
}

#[test]
fn forced_bump_normalizes_short_version_strings() {
    let content = "[project]\nname = \"foo\"\nversion = \"2\"\n";
    let r = resolve_document(content, false, &RegistryLookupResult::NotFound, Some(BumpLevel::Meso));
    match r.unwrap() {
        Resolution::Updated { version, .. } => assert_eq!(version, "2.1.0"),
        Resolution::Unchanged { .. } => panic!("a bump was called for"),
    }
}

#[test]
fn resolve_rejects_unparsable_document() {
    let r = resolve_document("also not [ toml", false, &RegistryLookupResult::Unreachable, None);
    assert!(matches!(r, Err(ResolveError::NoParse)));
}

#[test]
fn resolve_reports_overflow_instead_of_wrapping() {
    let content = "[project]\nname = \"foo\"\nversion = \"4294967295\"\n";
    let r = resolve_document(content, false, &RegistryLookupResult::NotFound, Some(BumpLevel::Macro));
    assert!(matches!(r, Err(ResolveError::VersionOverflow)));
}

#[test]
fn resolve_rewrites_native_package_table() {
    let cargo = "[package]\nname = \"bar\"\nversion = \"1.0.0\"\nedition = \"2021\"\n";
    let registry = RegistryLookupResult::Found("1.0.0".to_string());
    let r = resolve_document(cargo, true, &registry, None);
    match r.unwrap() {
        Resolution::Updated { version, content } => {
            assert_eq!(version, "1.0.1");
            assert_eq!(
                content,
                "[package]\nname = \"bar\"\nversion = \"1.0.1\"\nedition = \"2021\"\n"
            );
        }
        Resolution::Unchanged { .. } => panic!("a bump was called for"),
    }
}
