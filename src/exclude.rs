//! Exclusion rules: the manifest's `exclude` globs, plus the template
//! thumbnail, compiled into override globs that narrow the bundled files.
use vstd::prelude::*;
use vstd::string::*;

verus! {

/// Why the exclusion list is refused.
#[derive(Debug, Clone, PartialEq, Eq)]
pub enum ExcludeError {
    /// A pattern starts with `!`; only narrowing patterns are supported.
    NegatedGlob(String),
}

/// The text that describes an exclusion error.
pub open spec fn exclude_error_text(e: ExcludeError) -> Seq<char> {
    match e {
        ExcludeError::NegatedGlob(p) => "globs with '!' are not supported: "@ + p@,
    }
}

impl ExcludeError {
    /// A human-readable description of the error.
    pub fn message(&self) -> (r: String)
        ensures
            r@ == exclude_error_text(*self),
    {
        match self {
            ExcludeError::NegatedGlob(p) => {
                let mut m = String::from_str("globs with '!' are not supported: ");
                m.append(p.as_str());
                m
            },
        }
    }
}

/// A pattern that tries to widen the included set.
pub open spec fn is_negated(p: Seq<char>) -> bool {
    p.len() > 0 && p[0] == '!'
}

/// The pattern with every leading `./` removed.
pub open spec fn strip_dot_slash(p: Seq<char>) -> Seq<char>
    decreases p.len(),
{
    if p.len() >= 2 && p[0] == '.' && p[1] == '/' {
        strip_dot_slash(p.subrange(2, p.len() as int))
    } else {
        p
    }
}

/// The override glob that excludes what a pattern matches.
pub open spec fn exclusion_glob(p: Seq<char>) -> Seq<char> {
    seq!['!'] + strip_dot_slash(p)
}

/// The override globs for a list of patterns none of which is negated, with
/// the thumbnail (if any) excluded last.
pub open spec fn exclusion_globs(patterns: Seq<Seq<char>>, thumbnail: Option<Seq<char>>) -> Seq<Seq<char>> {
    let base = patterns.map_values(|p: Seq<char>| exclusion_glob(p));
    match thumbnail {
        Some(t) => base.push(seq!['!'] + t),
        None => base,
    }
}

/// The views of a list of strings.
pub open spec fn views(v: Seq<String>) -> Seq<Seq<char>> {
    v.map_values(|s: String| s@)
}

/// Removes every leading `./` from a pattern.
pub fn trim_dot_slash(p: &str) -> (r: &str)
    ensures
        r@ == strip_dot_slash(p@),
{
    let mut cur: &str = p;
    while cur.unicode_len() >= 2 && cur.get_char(0) == '.' && cur.get_char(1) == '/'
        invariant
            strip_dot_slash(cur@) == strip_dot_slash(p@),
        decreases cur@.len(),
    {
        let n = cur.unicode_len();
        cur = cur.substring_char(2, n);
    }
    cur
}

/// Compiles the exclusion patterns into override globs for the file walker.
/// Fails on the first pattern that starts with `!`; otherwise every pattern,
/// with leading `./` removed, becomes a `!`-glob, followed by the thumbnail.
pub fn resolve_exclusions(exclude: &Vec<String>, thumbnail: Option<&str>) -> (r: Result<
    Vec<String>,
    ExcludeError,
>)
    ensures
        r is Ok <==> forall|k: int| 0 <= k < exclude@.len() ==> !is_negated(#[trigger] exclude@[k]@),
        r matches Ok(globs) ==> views(globs@) == exclusion_globs(
            views(exclude@),
            match thumbnail {
                Some(t) => Some(t@),
                None => None,
            },
        ),
        r matches Err(ExcludeError::NegatedGlob(p)) ==> exists|i: int|
            0 <= i < exclude@.len() && #[trigger] exclude@[i] == p && is_negated(p@) && forall|
                k: int,
            | 0 <= k < i ==> !is_negated(#[trigger] exclude@[k]@),
{
    let mut globs: Vec<String> = Vec::new();
    let mut i: usize = 0;
    while i < exclude.len()
        invariant
            i <= exclude@.len(),
            globs@.len() == i,
            forall|k: int| 0 <= k < i ==> !is_negated(#[trigger] exclude@[k]@),
            forall|k: int|
                0 <= k < i ==> #[trigger] globs@[k]@ == exclusion_glob(exclude@[k]@),
        decreases exclude.len() - i,
    {
        let p = exclude[i].as_str();
        if p.unicode_len() > 0 && p.get_char(0) == '!' {
            return Err(ExcludeError::NegatedGlob(exclude[i].clone()));
        }
        let mut g = String::from_str("!");
        g.append(trim_dot_slash(p));
        proof {
            reveal_strlit("!");
        }
        globs.push(g);
        i = i + 1;
    }
    let ghost base = globs@;
    assert(views(base) =~= views(exclude@).map_values(|p: Seq<char>| exclusion_glob(p)));
    if let Some(t) = thumbnail {
        let mut g = String::from_str("!");
        g.append(t);
        proof {
            reveal_strlit("!");
        }
        assert(g@ =~= seq!['!'] + t@);
        globs.push(g);
        assert(views(globs@) =~= views(base).push(seq!['!'] + t@));
    } else {
        assert(views(globs@) =~= views(base));
    }
    Ok(globs)
}

} // verus!
