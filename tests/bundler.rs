use bundler::exclude::{resolve_exclusions, trim_dot_slash, ExcludeError};
use bundler::ident::{is_id_continue, is_id_start, is_ident};
use bundler::layout::{
    archive_name, check_version_entry, prepare_package, validate_archive, ArchiveError, LayoutError,
    PackageError,
};
use bundler::license::{check_license_leaves, validate_license, LicenseError, LicenseLeaf};
use bundler::manifest::{
    check_entry, check_identity, check_item, check_items, check_manifest, contains_str, is_typ_path,
    str_eq, validate_manifest, AuthorProblem, EntryKind, EntryProblem, FileStatus, ListKind,
    Manifest, ManifestError, Section, TemplateInfo, Vocabulary,
};
use bundler::version::{push_decimal, PackageVersion};

fn strings(v: &[&str]) -> Vec<String> {
    v.iter().map(|s| s.to_string()).collect()
}

fn vocab() -> Vocabulary {
    Vocabulary {
        categories: strings(&["components", "visualization", "layout", "text", "utility", "paper"]),
        disciplines: strings(&["mathematics", "physics", "biology"]),
        denied_authors: strings(&["Anonymous"]),
    }
}

fn manifest() -> Manifest {
    Manifest {
        name: "pkg".to_string(),
        version: PackageVersion { major: 1, minor: 0, patch: 0 },
        entrypoint: "lib.typ".to_string(),
        authors: strings(&["Jane Doe <jane@example.com>"]),
        license: Some("MIT".to_string()),
        description: Some("A package.".to_string()),
        categories: strings(&["components"]),
        disciplines: strings(&["mathematics"]),
        exclude: vec![],
        template: None,
        unknown_fields: vec![],
        package_unknown_fields: vec![],
    }
}

fn template() -> TemplateInfo {
    TemplateInfo {
        path: "template".to_string(),
        entrypoint: "main.typ".to_string(),
        thumbnail: Some("thumbnail.png".to_string()),
        unknown_fields: vec![],
    }
}

fn validate(m: &Manifest, rel: &str) -> Result<(), ManifestError> {
    validate_manifest(m, "ns", rel, &vocab(), FileStatus::Text, FileStatus::Text)
}

#[test]
fn identifiers_accepted() {
    assert!(is_ident("pkg"));
    assert!(is_ident("_private"));
    assert!(is_ident("my-package_2"));
    assert!(is_ident("café"));
    assert!(is_ident("a"));
}

#[test]
fn identifiers_refused() {
    assert!(!is_ident(""));
    assert!(!is_ident("-pkg"));
    assert!(!is_ident("1pkg"));
    assert!(!is_ident("my pkg"));
    assert!(!is_ident("pkg.name"));
    assert!(!is_ident("pkg/x"));
}

#[test]
fn identifier_characters() {
    assert!(is_id_start('_'));
    assert!(is_id_start('é'));
    assert!(!is_id_start('-'));
    assert!(!is_id_start('7'));
    assert!(is_id_continue('-'));
    assert!(is_id_continue('7'));
    assert!(!is_id_continue(' '));
}

#[test]
fn license_approved_leaves_accepted() {
    assert_eq!(validate_license(Some("MIT")), Ok(()));
    assert_eq!(validate_license(Some("MIT OR Apache-2.0")), Ok(()));
    assert_eq!(validate_license(Some("(MIT AND Apache-2.0) OR Apache-2.0")), Ok(()));
}

#[test]
fn license_unapproved_leaf_named() {
    assert_eq!(
        validate_license(Some("MIT AND CC-BY-NC-4.0")),
        Err(LicenseError::NotApproved("CC-BY-NC-4.0".to_string()))
    );
    assert_eq!(
        validate_license(Some("WTFPL OR MIT")),
        Err(LicenseError::NotApproved("WTFPL".to_string()))
    );
}

#[test]
fn license_missing_malformed_referencer() {
    assert_eq!(validate_license(None), Err(LicenseError::Missing));
    assert_eq!(validate_license(Some("MIT AND")), Err(LicenseError::Malformed));
    assert_eq!(validate_license(Some("")), Err(LicenseError::Malformed));
    assert_eq!(
        validate_license(Some("LicenseRef-Custom")),
        Err(LicenseError::ReferencerNotAllowed)
    );
}

#[test]
fn license_leaves_first_refusal_decides() {
    let ok = |id: &str| LicenseLeaf::Listed { id: id.to_string(), osi_approved: true };
    let bad = |id: &str| LicenseLeaf::Listed { id: id.to_string(), osi_approved: false };
    assert_eq!(check_license_leaves(&vec![]), Ok(()));
    assert_eq!(check_license_leaves(&vec![ok("MIT"), ok("Apache-2.0")]), Ok(()));
    assert_eq!(
        check_license_leaves(&vec![ok("MIT"), bad("X"), ok("Apache-2.0")]),
        Err(LicenseError::NotApproved("X".to_string()))
    );
    assert_eq!(
        check_license_leaves(&vec![ok("MIT"), LicenseLeaf::Referencer, bad("X")]),
        Err(LicenseError::ReferencerNotAllowed)
    );
    assert_eq!(
        LicenseError::NotApproved("X".to_string()).message(),
        "license is not OSI approved: X"
    );
}

#[test]
fn identity_matches_path() {
    let v = PackageVersion { major: 1, minor: 0, patch: 0 };
    assert!(check_identity("ns", "pkg", v, "ns/pkg/1.0.0"));
    assert!(!check_identity("ns", "pkg", v, "ns/pkg/1.0.1"));
    assert!(!check_identity("ns", "pkg", v, "other/pkg/1.0.0"));
    assert!(!check_identity("ns", "pkg", v, "ns/pkg/1.0"));
}

#[test]
fn identity_check_on_manifest() {
    assert_eq!(validate(&manifest(), "ns/pkg/1.0.0"), Ok(()));
    assert_eq!(validate(&manifest(), "ns/pkg/1.0.1"), Err(ManifestError::IdentityMismatch));
}

#[test]
fn version_text() {
    assert_eq!(PackageVersion { major: 1, minor: 0, patch: 0 }.to_text(), "1.0.0");
    assert_eq!(PackageVersion { major: 10, minor: 203, patch: 4096 }.to_text(), "10.203.4096");
    let mut s = "v".to_string();
    push_decimal(u32::MAX, &mut s);
    assert_eq!(s, "v4294967295");
}

#[test]
fn category_limit() {
    let mut m = manifest();
    m.categories = strings(&["components", "layout", "text", "utility"]);
    assert_eq!(validate(&m, "ns/pkg/1.0.0"), Err(ManifestError::TooManyCategories));
    m.categories = strings(&["components", "layout", "text"]);
    assert_eq!(validate(&m, "ns/pkg/1.0.0"), Ok(()));
}

#[test]
fn unknown_vocabulary_entries() {
    let mut m = manifest();
    m.categories = strings(&["components", "cooking"]);
    assert_eq!(
        validate(&m, "ns/pkg/1.0.0"),
        Err(ManifestError::UnknownCategory("cooking".to_string()))
    );
    let mut m = manifest();
    m.disciplines = strings(&["alchemy"]);
    assert_eq!(
        validate(&m, "ns/pkg/1.0.0"),
        Err(ManifestError::UnknownDiscipline("alchemy".to_string()))
    );
    let mut m = manifest();
    m.authors = strings(&["Jane", ""]);
    assert_eq!(
        validate(&m, "ns/pkg/1.0.0"),
        Err(ManifestError::InvalidAuthor(String::new(), AuthorProblem::Empty))
    );
    m.authors = strings(&["Anonymous"]);
    assert_eq!(
        validate(&m, "ns/pkg/1.0.0"),
        Err(ManifestError::InvalidAuthor("Anonymous".to_string(), AuthorProblem::Denied))
    );
}

#[test]
fn vocabulary_items() {
    let v = vocab();
    assert_eq!(check_item(ListKind::Categories, &"paper".to_string(), &v), None);
    assert_eq!(
        check_items(ListKind::Disciplines, &strings(&["physics", "x", "y"]), &v),
        Some(ManifestError::UnknownDiscipline("x".to_string()))
    );
    assert!(contains_str(&v.categories, "text"));
    assert!(!contains_str(&v.categories, "tex"));
    assert!(str_eq("abc", "abc"));
    assert!(!str_eq("abc", "abd"));
}

#[test]
fn manifest_checks_in_order() {
    let mut m = manifest();
    m.unknown_fields = strings(&["extra"]);
    m.description = None;
    assert_eq!(validate(&m, "ns/pkg/1.0.0"), Err(ManifestError::UnknownFields(Section::TopLevel, strings(&["extra"]))));
    let mut m = manifest();
    m.package_unknown_fields = strings(&["homepag"]);
    assert_eq!(validate(&m, "ns/pkg/1.0.0"), Err(ManifestError::UnknownFields(Section::Package, strings(&["homepag"]))));
    let mut m = manifest();
    m.name = "1pkg".to_string();
    assert_eq!(validate(&m, "ns/1pkg/1.0.0"), Err(ManifestError::InvalidIdentifier));
    let mut m = manifest();
    m.description = None;
    assert_eq!(validate(&m, "ns/pkg/1.0.0"), Err(ManifestError::MissingDescription));
    let mut m = manifest();
    m.license = None;
    assert_eq!(
        validate(&m, "ns/pkg/1.0.0"),
        Err(ManifestError::License(LicenseError::Missing))
    );
    m.license = Some("GPL-3.0-only WITH".to_string());
    assert_eq!(
        validate(&m, "ns/pkg/1.0.0"),
        Err(ManifestError::License(LicenseError::Malformed))
    );
}

#[test]
fn entrypoint_checks() {
    let m = manifest();
    let v = vocab();
    let lic = Ok(());
    assert_eq!(
        check_manifest(&m, "ns", "ns/pkg/1.0.0", &v, lic.clone(), FileStatus::Missing, FileStatus::Text),
        Err(ManifestError::InvalidEntrypoint(EntryKind::Package, EntryProblem::Missing))
    );
    assert_eq!(
        check_manifest(&m, "ns", "ns/pkg/1.0.0", &v, lic.clone(), FileStatus::NotText, FileStatus::Text),
        Err(ManifestError::InvalidEntrypoint(EntryKind::Package, EntryProblem::NotText))
    );
    let mut m2 = manifest();
    m2.entrypoint = "lib.typst".to_string();
    assert_eq!(
        check_manifest(&m2, "ns", "ns/pkg/1.0.0", &v, lic, FileStatus::Text, FileStatus::Text),
        Err(ManifestError::InvalidEntrypoint(EntryKind::Package, EntryProblem::NotTyp))
    );
    assert_eq!(
        check_entry(EntryKind::Template, "x.png", FileStatus::Text),
        Err(ManifestError::InvalidEntrypoint(EntryKind::Template, EntryProblem::NotTyp))
    );
    assert!(is_typ_path("lib.typ"));
    assert!(is_typ_path("src/a..typ"));
    assert!(!is_typ_path(".typ"));
    assert!(!is_typ_path("src/.typ"));
    assert!(!is_typ_path("typ"));
}

#[test]
fn license_outcome_given_to_checks() {
    let m = manifest();
    assert_eq!(
        check_manifest(
            &m,
            "ns",
            "ns/pkg/1.0.0",
            &vocab(),
            Err(LicenseError::NotApproved("X".to_string())),
            FileStatus::Text,
            FileStatus::Text
        ),
        Err(ManifestError::License(LicenseError::NotApproved("X".to_string())))
    );
}

#[test]
fn template_requires_category() {
    let mut m = manifest();
    m.template = Some(template());
    m.categories = vec![];
    assert_eq!(validate(&m, "ns/pkg/1.0.0"), Err(ManifestError::TemplateRequiresCategory));
    m.categories = strings(&["paper"]);
    assert_eq!(validate(&m, "ns/pkg/1.0.0"), Ok(()));
    assert_eq!(
        validate_manifest(&m, "ns", "ns/pkg/1.0.0", &vocab(), FileStatus::Text, FileStatus::Missing),
        Err(ManifestError::InvalidEntrypoint(EntryKind::Template, EntryProblem::Missing))
    );
    let mut t = template();
    t.unknown_fields = strings(&["foo"]);
    m.template = Some(t);
    assert_eq!(validate(&m, "ns/pkg/1.0.0"), Err(ManifestError::UnknownFields(Section::Template, strings(&["foo"]))));
}

#[test]
fn negated_exclusion_refused() {
    assert_eq!(
        resolve_exclusions(&strings(&["!build/"]), None),
        Err(ExcludeError::NegatedGlob("!build/".to_string()))
    );
    assert_eq!(
        resolve_exclusions(&strings(&["docs/", "!build/", "!x"]), Some("thumb.png")),
        Err(ExcludeError::NegatedGlob("!build/".to_string()))
    );
}

#[test]
fn exclusions_compiled() {
    assert_eq!(
        resolve_exclusions(&strings(&["./docs/", "././*.pdf", "tests", ".hidden"]), None),
        Ok(strings(&["!docs/", "!*.pdf", "!tests", "!.hidden"]))
    );
    assert_eq!(
        resolve_exclusions(&vec![], Some("thumbnail.png")),
        Ok(strings(&["!thumbnail.png"]))
    );
    assert_eq!(trim_dot_slash("./././a"), "a");
    assert_eq!(trim_dot_slash("../a"), "../a");
}

#[test]
fn version_entries() {
    assert_eq!(check_version_entry(Some("1.0.0"), true), Ok(()));
    assert_eq!(check_version_entry(Some("1.0.0-beta.1"), true), Ok(()));
    assert_eq!(check_version_entry(Some("1.0"), true), Err(LayoutError::InvalidVersion));
    assert_eq!(check_version_entry(None, true), Err(LayoutError::InvalidVersion));
    assert_eq!(check_version_entry(Some("1.0.0"), false), Err(LayoutError::NotADirectory));
}

#[test]
fn stored_names() {
    assert_eq!(archive_name(""), ".");
    assert_eq!(archive_name("ns/pkg/1.0.0/lib.typ"), "ns/pkg/1.0.0/lib.typ");
}

#[test]
fn packages_prepared() {
    let mut m = manifest();
    m.exclude = strings(&["./build"]);
    m.categories = strings(&["paper"]);
    m.template = Some(template());
    assert_eq!(
        prepare_package(&m, "ns", "ns/pkg/1.0.0", &vocab(), FileStatus::Text, FileStatus::Text),
        Ok(strings(&["!build", "!thumbnail.png"]))
    );
    m.exclude = strings(&["!build"]);
    assert_eq!(
        prepare_package(&m, "ns", "ns/pkg/1.0.0", &vocab(), FileStatus::Text, FileStatus::Text),
        Err(PackageError::Exclude(ExcludeError::NegatedGlob("!build".to_string())))
    );
    assert_eq!(
        prepare_package(&m, "ns", "ns/pkg/2.0.0", &vocab(), FileStatus::Text, FileStatus::Text),
        Err(PackageError::Manifest(ManifestError::IdentityMismatch))
    );
}

fn tar_gz(files: &[(&str, &[u8])]) -> Vec<u8> {
    let enc = flate2::write::GzEncoder::new(Vec::new(), flate2::Compression::default());
    let mut builder = tar::Builder::new(enc);
    for (name, data) in files {
        let mut header = tar::Header::new_gnu();
        header.set_size(data.len() as u64);
        header.set_mode(0o644);
        header.set_cksum();
        builder.append_data(&mut header, name, *data).unwrap();
    }
    builder.into_inner().unwrap().finish().unwrap()
}

#[test]
fn archive_reads_back() {
    let buf = tar_gz(&[("ns/pkg/1.0.0/lib.typ", b"#let x = 1"), ("ns/pkg/1.0.0/README.md", b"hi")]);
    assert_eq!(validate_archive(&buf), Ok(()));
    assert_eq!(validate_archive(&b"not an archive at all".to_vec()), Err(ArchiveError::Corrupt));
    let mut broken = buf.clone();
    for b in broken.iter_mut().skip(12) {
        *b = 0xff;
    }
    assert_eq!(validate_archive(&broken), Err(ArchiveError::Corrupt));
}

#[test]
fn exclusion_error_text() {
    assert_eq!(
        ExcludeError::NegatedGlob("!build/".to_string()).message(),
        "globs with '!' are not supported: !build/"
    );
    assert_eq!(LicenseError::Missing.message(), "package license is missing");
}
