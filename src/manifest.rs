//! Manifest acceptance: the checks a package manifest must pass, in order,
//! before the package is bundled.
use vstd::prelude::*;
use vstd::string::*;

use crate::exclude::views;
use crate::ident::{is_ident, spec_is_ident};
use crate::license::{license_check, validate_license, LicenseError};
use crate::version::{version_text, PackageVersion};

verus! {

/// The `template` section of a manifest.
#[derive(Debug, Clone)]
pub struct TemplateInfo {
    pub path: String,
    pub entrypoint: String,
    pub thumbnail: Option<String>,
    /// Keys of the section that the schema does not know.
    pub unknown_fields: Vec<String>,
}

/// A parsed package manifest.
#[derive(Debug, Clone)]
pub struct Manifest {
    pub name: String,
    pub version: PackageVersion,
    pub entrypoint: String,
    pub authors: Vec<String>,
    pub license: Option<String>,
    pub description: Option<String>,
    pub categories: Vec<String>,
    pub disciplines: Vec<String>,
    pub exclude: Vec<String>,
    pub template: Option<TemplateInfo>,
    /// Top-level keys that the schema does not know.
    pub unknown_fields: Vec<String>,
    /// Keys of the `package` section that the schema does not know.
    pub package_unknown_fields: Vec<String>,
}

/// The controlled vocabularies that authors, categories and disciplines are
/// checked against.
#[derive(Debug, Clone)]
pub struct Vocabulary {
    pub categories: Vec<String>,
    pub disciplines: Vec<String>,
    pub denied_authors: Vec<String>,
}

/// What is known of a file that a manifest names.
#[derive(Debug, Clone, Copy, PartialEq, Eq, Structural)]
pub enum FileStatus {
    Missing,
    NotText,
    Text,
}

/// Where unknown keys were found.
#[derive(Debug, Clone, Copy, PartialEq, Eq, Structural)]
pub enum Section {
    TopLevel,
    Package,
    Template,
}

/// Which entrypoint a problem concerns.
#[derive(Debug, Clone, Copy, PartialEq, Eq, Structural)]
pub enum EntryKind {
    Package,
    Template,
}

/// Why an entrypoint is refused.
#[derive(Debug, Clone, Copy, PartialEq, Eq, Structural)]
pub enum EntryProblem {
    Missing,
    NotTyp,
    NotText,
}

/// Why an author string is refused.
#[derive(Debug, Clone, Copy, PartialEq, Eq, Structural)]
pub enum AuthorProblem {
    Empty,
    Denied,
}

/// Which list of a manifest a controlled-vocabulary check concerns.
#[derive(Debug, Clone, Copy, PartialEq, Eq, Structural)]
pub enum ListKind {
    Authors,
    Categories,
    Disciplines,
}

/// Why a manifest is refused.
#[derive(Debug, Clone, PartialEq, Eq)]
pub enum ManifestError {
    /// The section, and the keys in it that the schema does not know.
    UnknownFields(Section, Vec<String>),
    IdentityMismatch,
    InvalidIdentifier,
    InvalidAuthor(String, AuthorProblem),
    MissingDescription,
    TooManyCategories,
    UnknownCategory(String),
    UnknownDiscipline(String),
    License(LicenseError),
    InvalidEntrypoint(EntryKind, EntryProblem),
    TemplateRequiresCategory,
}

/// The most categories a package may declare.
pub const MAX_CATEGORIES: usize = 3;

/// The path, relative to the bundling root, where a package must stand.
pub open spec fn identity_path(namespace: Seq<char>, name: Seq<char>, v: PackageVersion) -> Seq<
    char,
> {
    namespace + seq!['/'] + name + seq!['/'] + version_text(v)
}

/// Whether a path's file name has the extension `typ`.
pub open spec fn has_typ_extension(p: Seq<char>) -> bool {
    &&& p.len() > 4
    &&& p.subrange(p.len() - 4, p.len() as int) == seq!['.', 't', 'y', 'p']
    &&& p[p.len() - 5] != '/'
}

/// The verdict on an entrypoint: it must exist, have the `.typ` extension,
/// and be text.
pub open spec fn entry_verdict(kind: EntryKind, p: Seq<char>, status: FileStatus) -> Result<
    (),
    ManifestError,
> {
    if status == FileStatus::Missing {
        Err(ManifestError::InvalidEntrypoint(kind, EntryProblem::Missing))
    } else if !has_typ_extension(p) {
        Err(ManifestError::InvalidEntrypoint(kind, EntryProblem::NotTyp))
    } else if status == FileStatus::NotText {
        Err(ManifestError::InvalidEntrypoint(kind, EntryProblem::NotText))
    } else {
        Ok(())
    }
}

/// The error for one entry of a controlled-vocabulary list, if it is refused.
pub open spec fn item_error(kind: ListKind, x: String, vocab: Vocabulary) -> Option<ManifestError> {
    match kind {
        ListKind::Authors => if x@.len() == 0 {
            Some(ManifestError::InvalidAuthor(x, AuthorProblem::Empty))
        } else if views(vocab.denied_authors@).contains(x@) {
            Some(ManifestError::InvalidAuthor(x, AuthorProblem::Denied))
        } else {
            None
        },
        ListKind::Categories => if views(vocab.categories@).contains(x@) {
            None
        } else {
            Some(ManifestError::UnknownCategory(x))
        },
        ListKind::Disciplines => if views(vocab.disciplines@).contains(x@) {
            None
        } else {
            Some(ManifestError::UnknownDiscipline(x))
        },
    }
}

/// The error of the first refused entry of a list.
pub open spec fn first_item_error(kind: ListKind, xs: Seq<String>, vocab: Vocabulary) -> Option<
    ManifestError,
>
    decreases xs.len(),
{
    if xs.len() == 0 {
        None
    } else if item_error(kind, xs[0], vocab) is Some {
        item_error(kind, xs[0], vocab)
    } else {
        first_item_error(kind, xs.drop_first(), vocab)
    }
}

/// The verdict on the template section, given the status of its entrypoint.
pub open spec fn template_verdict(m: Manifest, tentry: FileStatus) -> Result<(), ManifestError> {
    match m.template {
        None => Ok(()),
        Some(t) => if t.unknown_fields@.len() > 0 {
            Err(ManifestError::UnknownFields(Section::Template, t.unknown_fields))
        } else if m.categories@.len() == 0 {
            Err(ManifestError::TemplateRequiresCategory)
        } else {
            entry_verdict(EntryKind::Template, t.entrypoint@, tentry)
        },
    }
}

/// The verdict on a manifest found at `rel` (relative to the bundling root)
/// in `namespace`, given the outcome of its license check and the status of
/// its entrypoint files: the first failing check, in order, decides.
pub open spec fn manifest_verdict(
    m: Manifest,
    namespace: Seq<char>,
    rel: Seq<char>,
    vocab: Vocabulary,
    license: Result<(), LicenseError>,
    entry: FileStatus,
    tentry: FileStatus,
) -> Result<(), ManifestError> {
    if m.unknown_fields@.len() > 0 {
        Err(ManifestError::UnknownFields(Section::TopLevel, m.unknown_fields))
    } else if m.package_unknown_fields@.len() > 0 {
        Err(ManifestError::UnknownFields(Section::Package, m.package_unknown_fields))
    } else if rel != identity_path(namespace, m.name@, m.version) {
        Err(ManifestError::IdentityMismatch)
    } else if !spec_is_ident(m.name@) {
        Err(ManifestError::InvalidIdentifier)
    } else if first_item_error(ListKind::Authors, m.authors@, vocab) is Some {
        Err(first_item_error(ListKind::Authors, m.authors@, vocab)->Some_0)
    } else if m.description is None {
        Err(ManifestError::MissingDescription)
    } else if m.categories@.len() > MAX_CATEGORIES {
        Err(ManifestError::TooManyCategories)
    } else if first_item_error(ListKind::Categories, m.categories@, vocab) is Some {
        Err(first_item_error(ListKind::Categories, m.categories@, vocab)->Some_0)
    } else if first_item_error(ListKind::Disciplines, m.disciplines@, vocab) is Some {
        Err(first_item_error(ListKind::Disciplines, m.disciplines@, vocab)->Some_0)
    } else if license is Err {
        Err(ManifestError::License(license->Err_0))
    } else if entry_verdict(EntryKind::Package, m.entrypoint@, entry) is Err {
        entry_verdict(EntryKind::Package, m.entrypoint@, entry)
    } else {
        template_verdict(m, tentry)
    }
}

/// Two outcomes agree: equal, where an unknown-fields error may hold a copy
/// of the keys rather than the very same list.
pub open spec fn same_outcome(r: Result<(), ManifestError>, v: Result<(), ManifestError>) -> bool {
    match (r, v) {
        (
            Err(ManifestError::UnknownFields(s1, k1)),
            Err(ManifestError::UnknownFields(s2, k2)),
        ) => s1 == s2 && k1@ == k2@,
        _ => r == v,
    }
}

/// A copy of a list of strings.
pub fn copy_strings(v: &Vec<String>) -> (r: Vec<String>)
    ensures
        r@ == v@,
{
    let mut r: Vec<String> = Vec::new();
    let mut i: usize = 0;
    while i < v.len()
        invariant
            i <= v@.len(),
            r@ == v@.subrange(0, i as int),
        decreases v.len() - i,
    {
        r.push(v[i].clone());
        i = i + 1;
        assert(r@ =~= v@.subrange(0, i as int));
    }
    assert(v@.subrange(0, i as int) =~= v@);
    r
}

/// Whether a list of strings holds one equal to `x`.
pub fn contains_str(list: &Vec<String>, x: &str) -> (r: bool)
    ensures
        r == views(list@).contains(x@),
{
    let mut i: usize = 0;
    while i < list.len()
        invariant
            i <= list@.len(),
            forall|k: int| 0 <= k < i ==> #[trigger] list@[k]@ != x@,
        decreases list.len() - i,
    {
        if str_eq(list[i].as_str(), x) {
            assert(views(list@)[i as int] == x@);
            return true;
        }
        i = i + 1;
    }
    assert forall|k: int| 0 <= k < views(list@).len() implies views(list@)[k] != x@ by {
        assert(views(list@)[k] == list@[k]@);
    }
    false
}

/// Whether two strings hold the same characters.
pub fn str_eq(a: &str, b: &str) -> (r: bool)
    ensures
        r == (a@ == b@),
{
    let n = a.unicode_len();
    if n != b.unicode_len() {
        return false;
    }
    let mut i: usize = 0;
    while i < n
        invariant
            i <= n,
            n == a@.len(),
            n == b@.len(),
            forall|k: int| 0 <= k < i ==> a@[k] == b@[k],
        decreases n - i,
    {
        if a.get_char(i) != b.get_char(i) {
            return false;
        }
        i = i + 1;
    }
    assert(a@ =~= b@);
    true
}

/// Whether a path's file name has the extension `typ`.
pub fn is_typ_path(p: &str) -> (r: bool)
    ensures
        r == has_typ_extension(p@),
{
    let n = p.unicode_len();
    if n <= 4 {
        return false;
    }
    let r = p.get_char(n - 4) == '.' && p.get_char(n - 3) == 't' && p.get_char(n - 2) == 'y'
        && p.get_char(n - 1) == 'p' && p.get_char(n - 5) != '/';
    assert(r == has_typ_extension(p@)) by {
        if p@.subrange(n - 4, n as int) == seq!['.', 't', 'y', 'p'] {
            assert(p@.subrange(n - 4, n as int)[0] == p@[n - 4]);
            assert(p@.subrange(n - 4, n as int)[1] == p@[n - 3]);
            assert(p@.subrange(n - 4, n as int)[2] == p@[n - 2]);
            assert(p@.subrange(n - 4, n as int)[3] == p@[n - 1]);
        }
        if r {
            assert(p@.subrange(n - 4, n as int) =~= seq!['.', 't', 'y', 'p']);
        }
    }
    r
}

/// Checks an entrypoint: it must exist, have the `.typ` extension, and be text.
pub fn check_entry(kind: EntryKind, p: &str, status: FileStatus) -> (r: Result<(), ManifestError>)
    ensures
        r == entry_verdict(kind, p@, status),
{
    if status == FileStatus::Missing {
        Err(ManifestError::InvalidEntrypoint(kind, EntryProblem::Missing))
    } else if !is_typ_path(p) {
        Err(ManifestError::InvalidEntrypoint(kind, EntryProblem::NotTyp))
    } else if status == FileStatus::NotText {
        Err(ManifestError::InvalidEntrypoint(kind, EntryProblem::NotText))
    } else {
        Ok(())
    }
}

/// Checks one entry of a controlled-vocabulary list.
pub fn check_item(kind: ListKind, x: &String, vocab: &Vocabulary) -> (r: Option<ManifestError>)
    ensures
        r == item_error(kind, *x, *vocab),
{
    match kind {
        ListKind::Authors => if x.as_str().unicode_len() == 0 {
            Some(ManifestError::InvalidAuthor(x.clone(), AuthorProblem::Empty))
        } else if contains_str(&vocab.denied_authors, x.as_str()) {
            Some(ManifestError::InvalidAuthor(x.clone(), AuthorProblem::Denied))
        } else {
            None
        },
        ListKind::Categories => if contains_str(&vocab.categories, x.as_str()) {
            None
        } else {
            Some(ManifestError::UnknownCategory(x.clone()))
        },
        ListKind::Disciplines => if contains_str(&vocab.disciplines, x.as_str()) {
            None
        } else {
            Some(ManifestError::UnknownDiscipline(x.clone()))
        },
    }
}

/// Checks every entry of a controlled-vocabulary list in order; the first
/// refused entry decides the error.
pub fn check_items(kind: ListKind, xs: &Vec<String>, vocab: &Vocabulary) -> (r: Option<
    ManifestError,
>)
    ensures
        r == first_item_error(kind, xs@, *vocab),
{
    let mut i: usize = 0;
    assert(xs@.skip(0) =~= xs@);
    while i < xs.len()
        invariant
            i <= xs@.len(),
            first_item_error(kind, xs@, *vocab) == first_item_error(kind, xs@.skip(i as int), *vocab),
        decreases xs.len() - i,
    {
        assert(xs@.skip(i as int).drop_first() =~= xs@.skip(i as int + 1));
        let e = check_item(kind, &xs[i], vocab);
        if e.is_some() {
            return e;
        }
        i = i + 1;
    }
    assert(xs@.skip(i as int) =~= Seq::<String>::empty());
    None
}

/// Whether a package found at `rel` (relative to the bundling root) stands
/// where its namespace, name and version place it.
pub fn check_identity(namespace: &str, name: &str, version: PackageVersion, rel: &str) -> (r: bool)
    ensures
        r == (rel@ == identity_path(namespace@, name@, version)),
{
    let mut expected = String::from_str(namespace);
    expected.append("/");
    expected.append(name);
    expected.append("/");
    let v = version.to_text();
    expected.append(v.as_str());
    proof {
        reveal_strlit("/");
    }
    assert(expected@ =~= identity_path(namespace@, name@, version));
    str_eq(expected.as_str(), rel)
}

/// Runs the manifest checks in order, with the outcome of the license check
/// given; the first failing check decides the error.
pub fn check_manifest(
    m: &Manifest,
    namespace: &str,
    rel: &str,
    vocab: &Vocabulary,
    license: Result<(), LicenseError>,
    entry: FileStatus,
    tentry: FileStatus,
) -> (r: Result<(), ManifestError>)
    ensures
        same_outcome(r, manifest_verdict(*m, namespace@, rel@, *vocab, license, entry, tentry)),
{
    if m.unknown_fields.len() > 0 {
        return Err(ManifestError::UnknownFields(Section::TopLevel, copy_strings(&m.unknown_fields)));
    }
    if m.package_unknown_fields.len() > 0 {
        return Err(
            ManifestError::UnknownFields(Section::Package, copy_strings(&m.package_unknown_fields)),
        );
    }
    if !check_identity(namespace, m.name.as_str(), m.version, rel) {
        return Err(ManifestError::IdentityMismatch);
    }
    if !is_ident(m.name.as_str()) {
        return Err(ManifestError::InvalidIdentifier);
    }
    if let Some(e) = check_items(ListKind::Authors, &m.authors, vocab) {
        return Err(e);
    }
    if m.description.is_none() {
        return Err(ManifestError::MissingDescription);
    }
    if m.categories.len() > MAX_CATEGORIES {
        return Err(ManifestError::TooManyCategories);
    }
    if let Some(e) = check_items(ListKind::Categories, &m.categories, vocab) {
        return Err(e);
    }
    if let Some(e) = check_items(ListKind::Disciplines, &m.disciplines, vocab) {
        return Err(e);
    }
    if let Err(e) = license {
        return Err(ManifestError::License(e));
    }
    check_entry(EntryKind::Package, m.entrypoint.as_str(), entry)?;
    match &m.template {
        None => Ok(()),
        Some(t) => {
            if t.unknown_fields.len() > 0 {
                return Err(
                    ManifestError::UnknownFields(Section::Template, copy_strings(&t.unknown_fields)),
                );
            }
            if m.categories.len() == 0 {
                return Err(ManifestError::TemplateRequiresCategory);
            }
            check_entry(EntryKind::Template, t.entrypoint.as_str(), tentry)
        },
    }
}

/// The license field's text, if any.
pub open spec fn license_text(license: Option<String>) -> Option<Seq<char>> {
    match license {
        Some(s) => Some(s@),
        None => None,
    }
}

/// Validates a manifest found at `rel` (relative to the bundling root) in
/// `namespace`, given the status of its entrypoint files. The license is
/// parsed as an SPDX expression; every other check is decided here.
pub fn validate_manifest(
    m: &Manifest,
    namespace: &str,
    rel: &str,
    vocab: &Vocabulary,
    entry: FileStatus,
    tentry: FileStatus,
) -> (r: Result<(), ManifestError>)
    ensures
        same_outcome(
            r,
            manifest_verdict(
                *m,
                namespace@,
                rel@,
                *vocab,
                license_check(license_text(m.license)),
                entry,
                tentry,
            ),
        ),
{
    let license = match &m.license {
        Some(s) => validate_license(Some(s.as_str())),
        None => validate_license(None),
    };
    check_manifest(m, namespace, rel, vocab, license, entry, tentry)
}

/// A list none of whose entries is refused has no first error.
pub proof fn lemma_no_item_error(kind: ListKind, xs: Seq<String>, vocab: Vocabulary)
    requires
        forall|k: int| 0 <= k < xs.len() ==> item_error(kind, #[trigger] xs[k], vocab) is None,
    ensures
        first_item_error(kind, xs, vocab) is None,
    decreases xs.len(),
{
    if xs.len() > 0 {
        let rest = xs.drop_first();
        assert forall|k: int| 0 <= k < rest.len() implies item_error(
            kind,
            #[trigger] rest[k],
            vocab,
        ) is None by {
            assert(rest[k] == xs[k + 1]);
        }
        lemma_no_item_error(kind, rest, vocab);
    }
}

/// Once the checks before it pass, a manifest with more than three categories
/// is refused for too many categories; one with at most three, each of them
/// in the vocabulary, passes both the limit and the category checks.
pub proof fn lemma_category_limit(
    m: Manifest,
    namespace: Seq<char>,
    rel: Seq<char>,
    vocab: Vocabulary,
    license: Result<(), LicenseError>,
    entry: FileStatus,
    tentry: FileStatus,
)
    requires
        m.unknown_fields@.len() == 0,
        m.package_unknown_fields@.len() == 0,
        rel == identity_path(namespace, m.name@, m.version),
        spec_is_ident(m.name@),
        first_item_error(ListKind::Authors, m.authors@, vocab) is None,
        m.description is Some,
    ensures
        m.categories@.len() > MAX_CATEGORIES ==> manifest_verdict(
            m,
            namespace,
            rel,
            vocab,
            license,
            entry,
            tentry,
        ) == Err::<(), ManifestError>(ManifestError::TooManyCategories),
        m.categories@.len() <= MAX_CATEGORIES && (forall|k: int|
            0 <= k < m.categories@.len() ==> views(vocab.categories@).contains(
                #[trigger] m.categories@[k]@,
            )) ==> {
            &&& manifest_verdict(m, namespace, rel, vocab, license, entry, tentry) != Err::<
                (),
                ManifestError,
            >(ManifestError::TooManyCategories)
            &&& first_item_error(ListKind::Categories, m.categories@, vocab) is None
        },
{
    if m.categories@.len() <= MAX_CATEGORIES && (forall|k: int|
        0 <= k < m.categories@.len() ==> views(vocab.categories@).contains(
            #[trigger] m.categories@[k]@,
        )) {
        assert forall|k: int| 0 <= k < m.categories@.len() implies item_error(
            ListKind::Categories,
            #[trigger] m.categories@[k],
            vocab,
        ) is None by {
            assert(views(vocab.categories@).contains(m.categories@[k]@));
        }
        lemma_no_item_error(ListKind::Categories, m.categories@, vocab);
        lemma_item_error_kind(ListKind::Disciplines, m.disciplines@, vocab);
    }
}

proof fn lemma_item_error_kind(kind: ListKind, xs: Seq<String>, vocab: Vocabulary)
    ensures
        first_item_error(kind, xs, vocab) != Some(ManifestError::TooManyCategories),
    decreases xs.len(),
{
    if xs.len() > 0 && item_error(kind, xs[0], vocab) is None {
        lemma_item_error_kind(kind, xs.drop_first(), vocab);
    }
}

/// A manifest with a template section and no categories is refused for
/// lacking a category once the checks before it pass, whatever the state of
/// the template's own entrypoint.
pub proof fn lemma_template_requires_category(
    m: Manifest,
    namespace: Seq<char>,
    rel: Seq<char>,
    vocab: Vocabulary,
    entry: FileStatus,
    tentry: FileStatus,
)
    requires
        m.unknown_fields@.len() == 0,
        m.package_unknown_fields@.len() == 0,
        rel == identity_path(namespace, m.name@, m.version),
        spec_is_ident(m.name@),
        first_item_error(ListKind::Authors, m.authors@, vocab) is None,
        m.description is Some,
        first_item_error(ListKind::Disciplines, m.disciplines@, vocab) is None,
        entry_verdict(EntryKind::Package, m.entrypoint@, entry) is Ok,
        m.template matches Some(t) && t.unknown_fields@.len() == 0,
        m.categories@.len() == 0,
    ensures
        manifest_verdict(m, namespace, rel, vocab, Ok(()), entry, tentry) == Err::<
            (),
            ManifestError,
        >(ManifestError::TemplateRequiresCategory),
{
    assert(first_item_error(ListKind::Categories, m.categories@, vocab) is None);
}

} // verus!
