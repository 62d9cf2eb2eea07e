//! License acceptance: every leaf of an SPDX expression must be a listed,
//! OSI-approved license.
use vstd::prelude::*;

verus! {

/// Whether a string is a well-formed SPDX license expression.
pub uninterp spec fn spdx_parses(s: Seq<char>) -> bool;

/// The leaf requirements of a well-formed SPDX license expression, in order.
pub uninterp spec fn spdx_leaves(s: Seq<char>) -> Seq<LicenseLeaf>;

/// One leaf requirement of a license expression.
#[derive(Debug, Clone, PartialEq, Eq)]
pub enum LicenseLeaf {
    /// A license referencer (`LicenseRef-...`) rather than a listed identifier.
    Referencer,
    /// A license of the SPDX list, by its short identifier.
    Listed { id: String, osi_approved: bool },
}

/// Why a license field is refused.
#[derive(Debug, Clone, PartialEq, Eq)]
pub enum LicenseError {
    /// The manifest declares no license.
    Missing,
    /// The text is not a valid SPDX expression.
    Malformed,
    /// A leaf is a license referencer.
    ReferencerNotAllowed,
    /// A leaf names a license that is not OSI approved.
    NotApproved(String),
}

/// The text that describes a license error.
pub open spec fn license_error_text(e: LicenseError) -> Seq<char> {
    match e {
        LicenseError::Missing => "package license is missing"@,
        LicenseError::Malformed => "failed to parse SPDX license expression"@,
        LicenseError::ReferencerNotAllowed => "license must not contain a referencer"@,
        LicenseError::NotApproved(id) => "license is not OSI approved: "@ + id@,
    }
}

impl LicenseError {
    /// A human-readable description of the error.
    pub fn message(&self) -> (r: String)
        ensures
            r@ == license_error_text(*self),
    {
        match self {
            LicenseError::Missing => String::from_str("package license is missing"),
            LicenseError::Malformed => String::from_str("failed to parse SPDX license expression"),
            LicenseError::ReferencerNotAllowed => String::from_str(
                "license must not contain a referencer",
            ),
            LicenseError::NotApproved(id) => {
                let mut m = String::from_str("license is not OSI approved: ");
                m.append(id.as_str());
                m
            },
        }
    }
}

/// Relies on spdx::Expression::parse (strict mode), Expression::requirements,
/// LicenseItem::id and LicenseId::is_osi_approved: parses a license expression
/// and lists its leaves in order, each with its short identifier and approval.
#[verifier::external_body]
fn license_leaves(s: &str) -> (r: Option<Vec<LicenseLeaf>>)
    ensures
        r is Some <==> spdx_parses(s@),
        r matches Some(v) ==> v@ == spdx_leaves(s@),
{
    spdx::Expression::parse(s).ok().map(|e| e.requirements().map(|r| match r.req.license.id() {
        Some(id) => LicenseLeaf::Listed { id: id.name.to_string(), osi_approved: id.is_osi_approved() },
        None => LicenseLeaf::Referencer,
    }).collect())
}

/// A leaf that the registry accepts.
pub open spec fn leaf_ok(l: LicenseLeaf) -> bool {
    l matches LicenseLeaf::Listed { osi_approved: true, .. }
}

/// The error a refused leaf is reported with.
pub open spec fn leaf_error(l: LicenseLeaf) -> LicenseError {
    match l {
        LicenseLeaf::Referencer => LicenseError::ReferencerNotAllowed,
        LicenseLeaf::Listed { id, .. } => LicenseError::NotApproved(id),
    }
}

/// The verdict on a sequence of leaves: the error of the first refused leaf,
/// or success when every leaf is accepted.
pub open spec fn license_verdict(leaves: Seq<LicenseLeaf>) -> Result<(), LicenseError>
    decreases leaves.len(),
{
    if leaves.len() == 0 {
        Ok(())
    } else if leaf_ok(leaves[0]) {
        license_verdict(leaves.drop_first())
    } else {
        Err(leaf_error(leaves[0]))
    }
}

/// Checks the leaves of a license expression in order; the first refused leaf
/// decides the error.
pub fn check_license_leaves(leaves: &Vec<LicenseLeaf>) -> (r: Result<(), LicenseError>)
    ensures
        r == license_verdict(leaves@),
{
    let mut i: usize = 0;
    assert(leaves@.skip(0) =~= leaves@);
    while i < leaves.len()
        invariant
            i <= leaves@.len(),
            license_verdict(leaves@) == license_verdict(leaves@.skip(i as int)),
        decreases leaves.len() - i,
    {
        assert(leaves@.skip(i as int).drop_first() =~= leaves@.skip(i as int + 1));
        match &leaves[i] {
            LicenseLeaf::Referencer => {
                return Err(LicenseError::ReferencerNotAllowed);
            },
            LicenseLeaf::Listed { id, osi_approved } => {
                if !*osi_approved {
                    return Err(LicenseError::NotApproved(id.clone()));
                }
            },
        }
        i = i + 1;
    }
    assert(leaves@.skip(i as int) =~= Seq::<LicenseLeaf>::empty());
    Ok(())
}

/// The outcome of the license check on a license field: missing, malformed,
/// or the verdict on the expression's leaves.
pub open spec fn license_check(license: Option<Seq<char>>) -> Result<(), LicenseError> {
    match license {
        None => Err(LicenseError::Missing),
        Some(s) => if spdx_parses(s) {
            license_verdict(spdx_leaves(s))
        } else {
            Err(LicenseError::Malformed)
        },
    }
}

/// Validates a manifest's license field: it must be present, parse as an SPDX
/// expression, and every leaf of it must be accepted.
pub fn validate_license(license: Option<&str>) -> (r: Result<(), LicenseError>)
    ensures
        r == license_check(
            match license {
                Some(s) => Some(s@),
                None => None,
            },
        ),
        license matches Some(s) ==> (r == Err::<(), LicenseError>(LicenseError::Malformed)
            <==> !spdx_parses(s@)),
{
    match license {
        None => Err(LicenseError::Missing),
        Some(s) => match license_leaves(s) {
            None => Err(LicenseError::Malformed),
            Some(leaves) => {
                let r = check_license_leaves(&leaves);
                proof {
                    lemma_verdict_not_malformed(leaves@);
                }
                r
            },
        },
    }
}

proof fn lemma_verdict_not_malformed(leaves: Seq<LicenseLeaf>)
    ensures
        license_verdict(leaves) != Err::<(), LicenseError>(LicenseError::Malformed),
    decreases leaves.len(),
{
    if leaves.len() > 0 && leaf_ok(leaves[0]) {
        lemma_verdict_not_malformed(leaves.drop_first());
    }
}

/// A license expression all of whose leaves are listed and OSI approved is
/// accepted; inserting one listed leaf that is not approved, anywhere among
/// them, makes it refused with that leaf's identifier named.
pub proof fn lemma_license_acceptance(leaves: Seq<LicenseLeaf>, pos: int, id: String)
    requires
        forall|k: int| 0 <= k < leaves.len() ==> leaf_ok(#[trigger] leaves[k]),
        0 <= pos <= leaves.len(),
    ensures
        license_verdict(leaves) == Ok::<(), LicenseError>(()),
        license_verdict(
            leaves.insert(pos, LicenseLeaf::Listed { id, osi_approved: false }),
        ) == Err::<(), LicenseError>(LicenseError::NotApproved(id)),
    decreases leaves.len(),
{
    let bad = LicenseLeaf::Listed { id, osi_approved: false };
    if leaves.len() > 0 {
        let rest = leaves.drop_first();
        assert forall|k: int| 0 <= k < rest.len() implies leaf_ok(#[trigger] rest[k]) by {
            assert(rest[k] == leaves[k + 1]);
        }
        if pos > 0 {
            lemma_license_acceptance(rest, pos - 1, id);
            assert(leaves.insert(pos, bad).drop_first() =~= rest.insert(pos - 1, bad));
            assert(leaves.insert(pos, bad)[0] == leaves[0]);
        } else {
            lemma_license_acceptance(rest, 0, id);
        }
    }
}

} // verus!
