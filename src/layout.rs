//! The layout of the bundling root, and how a package's files are named in
//! the archive.
use vstd::prelude::*;
use vstd::string::*;

use crate::exclude::{exclusion_globs, is_negated, resolve_exclusions, views, ExcludeError};
use crate::license::license_check;
use crate::manifest::{
    license_text, manifest_verdict, same_outcome, validate_manifest, FileStatus, Manifest,
    ManifestError, Vocabulary,
};

verus! {

/// Whether a string is a valid semantic version.
pub uninterp spec fn semver_parses(s: Seq<char>) -> bool;

/// Relies on semver::Version::parse: whether the text is a semantic version.
#[verifier::external_body]
fn parses_as_semver(s: &str) -> (r: bool)
    ensures
        r == semver_parses(s@),
{
    semver::Version::parse(s).is_ok()
}

/// A structural error in the bundling root; it stops the whole run.
#[derive(Debug, Clone, Copy, PartialEq, Eq, Structural)]
pub enum LayoutError {
    /// A package directory holds a file where only version directories may stand.
    NotADirectory,
    /// A version directory's name is not a semantic version.
    InvalidVersion,
}

/// Checks an entry found inside a package directory: it must be a directory
/// whose name (absent when it is not valid UTF-8) is a semantic version.
pub fn check_version_entry(name: Option<&str>, is_dir: bool) -> (r: Result<(), LayoutError>)
    ensures
        !is_dir ==> r == Err::<(), LayoutError>(LayoutError::NotADirectory),
        is_dir ==> (r is Ok <==> (name is Some && semver_parses(name->Some_0@))),
        is_dir ==> (r is Err ==> r == Err::<(), LayoutError>(LayoutError::InvalidVersion)),
{
    if !is_dir {
        return Err(LayoutError::NotADirectory);
    }
    match name {
        Some(n) => if parses_as_semver(n) {
            Ok(())
        } else {
            Err(LayoutError::InvalidVersion)
        },
        None => Err(LayoutError::InvalidVersion),
    }
}

/// The name under which a path relative to the bundling root is stored:
/// the path itself, or `.` for the root.
pub open spec fn stored_name(rel: Seq<char>) -> Seq<char> {
    if rel.len() == 0 {
        seq!['.']
    } else {
        rel
    }
}

/// The name under which an entry is stored in the archive.
pub fn archive_name(rel: &str) -> (r: String)
    ensures
        r@ == stored_name(rel@),
{
    proof {
        reveal_strlit(".");
    }
    if rel.unicode_len() == 0 {
        String::from_str(".")
    } else {
        String::from_str(rel)
    }
}

/// Why a package is left out of the archive.
#[derive(Debug, Clone, PartialEq, Eq)]
pub enum PackageError {
    Manifest(ManifestError),
    Exclude(ExcludeError),
}

/// The thumbnail of a manifest's template, if it has one.
pub open spec fn thumbnail_of(m: Manifest) -> Option<Seq<char>> {
    match m.template {
        Some(t) => match t.thumbnail {
            Some(p) => Some(p@),
            None => None,
        },
        None => None,
    }
}

/// The verdict on a package's manifest.
pub open spec fn package_verdict(
    m: Manifest,
    namespace: Seq<char>,
    rel: Seq<char>,
    vocab: Vocabulary,
    entry: FileStatus,
    tentry: FileStatus,
) -> Result<(), ManifestError> {
    manifest_verdict(m, namespace, rel, vocab, license_check(license_text(m.license)), entry, tentry)
}

/// Validates a package's manifest and, when it is accepted, compiles the
/// override globs that select the files to bundle.
pub fn prepare_package(
    m: &Manifest,
    namespace: &str,
    rel: &str,
    vocab: &Vocabulary,
    entry: FileStatus,
    tentry: FileStatus,
) -> (r: Result<Vec<String>, PackageError>)
    ensures
        ({
            let v = package_verdict(*m, namespace@, rel@, *vocab, entry, tentry);
            &&& v is Err ==> (r matches Err(PackageError::Manifest(e)) && same_outcome(Err(e), v))
            &&& v is Ok ==> (r is Ok <==> forall|k: int|
                0 <= k < m.exclude@.len() ==> !is_negated(#[trigger] m.exclude@[k]@))
        }),
        r matches Ok(globs) ==> views(globs@) == exclusion_globs(views(m.exclude@), thumbnail_of(*m)),
        r matches Err(PackageError::Exclude(ExcludeError::NegatedGlob(p))) ==> exists|i: int|
            0 <= i < m.exclude@.len() && #[trigger] m.exclude@[i] == p && is_negated(p@) && forall|
                k: int,
            | 0 <= k < i ==> !is_negated(#[trigger] m.exclude@[k]@),
{
    if let Err(e) = validate_manifest(m, namespace, rel, vocab, entry, tentry) {
        return Err(PackageError::Manifest(e));
    }
    let thumbnail = match &m.template {
        Some(t) => match &t.thumbnail {
            Some(p) => Some(p.as_str()),
            None => None,
        },
        None => None,
    };
    match resolve_exclusions(&m.exclude, thumbnail) {
        Ok(globs) => Ok(globs),
        Err(e) => Err(PackageError::Exclude(e)),
    }
}

/// Whether a byte buffer decompresses as gzip into a tar stream all of whose
/// entries can be read.
pub uninterp spec fn tar_gz_reads_back(b: Seq<u8>) -> bool;

/// Relies on flate2::read::GzDecoder, tar::Archive::entries and the entries
/// iterator: decodes the buffer and reads every entry's header.
#[verifier::external_body]
fn archive_reads_back(buf: &Vec<u8>) -> (r: bool)
    ensures
        r == tar_gz_reads_back(buf@),
{
    let decoder = flate2::read::GzDecoder::new(std::io::Cursor::new(buf.as_slice()));
    let mut archive = tar::Archive::new(decoder);
    match archive.entries() {
        Ok(mut entries) => entries.all(|e| e.is_ok()),
        Err(_) => false,
    }
}

/// Why a finished archive is refused.
#[derive(Debug, Clone, Copy, PartialEq, Eq, Structural)]
pub enum ArchiveError {
    /// The bytes do not read back as a gzip-compressed tar stream.
    Corrupt,
}

/// Checks a finished archive before it is persisted: it must read back,
/// entry by entry, through decompression and the tar reader.
pub fn validate_archive(buf: &Vec<u8>) -> (r: Result<(), ArchiveError>)
    ensures
        r is Ok <==> tar_gz_reads_back(buf@),
        r is Err ==> r == Err::<(), ArchiveError>(ArchiveError::Corrupt),
{
    if archive_reads_back(buf) {
        Ok(())
    } else {
        Err(ArchiveError::Corrupt)
    }
}

} // verus!
