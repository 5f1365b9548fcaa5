//! Path resolution: from a path spec, as a configuration document writes
//! it, to the path it stands for.
//!
//! A spec whose first component is `~` is relative to the home directory;
//! every other spec is relative to a root directory. The home directory is
//! handed in by the caller, so nothing here reads the environment.

use vstd::prelude::*;
use crate::failure::{failed, Failure, Reason};

verus! {

/// Whether a spec is relative to the home directory: it is `~` alone, or
/// begins with `~/`. A name that merely begins with a tilde, such as
/// `~user`, is an ordinary spec.
pub open spec fn is_home_relative(spec: Seq<char>) -> bool {
    spec.len() >= 1 && spec[0] == '~' && (spec.len() == 1 || spec[1] == '/')
}

/// A path without the separators it begins with.
pub open spec fn without_leading_separators(path: Seq<char>) -> Seq<char>
    decreases path.len(),
{
    if path.len() > 0 && path[0] == '/' {
        without_leading_separators(path.skip(1))
    } else {
        path
    }
}

/// What a home-relative spec names below the home directory: the spec
/// without the tilde and the separators behind it.
pub open spec fn below_home(spec: Seq<char>) -> Seq<char> {
    without_leading_separators(spec.skip(1))
}

/// `segment` joined onto `base`. An empty segment leaves the base as it
/// is; an absolute segment replaces it; any other segment is appended,
/// behind one separator unless the base is empty or already ends in one.
pub open spec fn joined(base: Seq<char>, segment: Seq<char>) -> Seq<char> {
    if segment.len() == 0 {
        base
    } else if segment[0] == '/' {
        segment
    } else if base.len() == 0 || base.last() == '/' {
        base + segment
    } else {
        base + seq!['/'] + segment
    }
}

/// The path that `spec` stands for, given the root it is relative to and
/// the home directory, if one is known.
pub open spec fn resolved(spec: Seq<char>, root: Seq<char>, home: Option<Seq<char>>) -> Result<
    Seq<char>,
    Reason,
> {
    if is_home_relative(spec) {
        match home {
            Some(h) => Ok(joined(h, below_home(spec))),
            None => Err(Reason::HomeUnset),
        }
    } else {
        Ok(joined(root, spec))
    }
}

/// An optional string as plain values.
pub open spec fn text_of(s: Option<&str>) -> Option<Seq<char>> {
    match s {
        Some(t) => Some(t@),
        None => None,
    }
}

/// An optional string, borrowed.
pub fn as_text(s: &Option<String>) -> (r: Option<&str>)
    ensures
        text_of(r) == s.deep_view(),
{
    match s {
        Some(t) => Some(t.as_str()),
        None => None,
    }
}

/// Whether an executable result is the one the model gives: the same
/// path, or a failure for the same reason that names `subject`.
pub open spec fn agrees(
    r: Result<String, Failure>,
    model: Result<Seq<char>, Reason>,
    subject: Seq<char>,
) -> bool {
    match model {
        Ok(p) => r is Ok && r->Ok_0@ == p,
        Err(reason) => r is Err && r->Err_0@ == failed(reason, subject),
    }
}

/// Stripping separators removes a run of them from the front and nothing
/// else, and what is left does not begin with one.
pub proof fn lemma_without_leading_separators(path: Seq<char>, n: int)
    requires
        0 <= n <= path.len(),
        forall|i: int| 0 <= i < n ==> path[i] == '/',
        n == path.len() || path[n] != '/',
    ensures
        without_leading_separators(path) == path.skip(n),
    decreases n,
{
    if n > 0 {
        lemma_without_leading_separators(path.skip(1), n - 1);
    }
}

/// Joins a segment onto a base.
pub fn join(base: &str, segment: &str) -> (r: String)
    ensures
        r@ == joined(base@, segment@),
{
    let seg_len: usize = segment.unicode_len();
    if seg_len == 0 {
        return base.to_owned();
    }
    if segment.get_char(0) == '/' {
        return segment.to_owned();
    }
    let base_len: usize = base.unicode_len();
    let mut out = base.to_owned();
    if base_len > 0 && base.get_char(base_len - 1) != '/' {
        proof {
            reveal_strlit("/");
        }
        out.append("/");
    }
    out.append(segment);
    out
}

/// Resolves a spec against its root, or against the home directory where
/// the spec is relative to that. A home-relative spec fails where no home
/// directory is known; no other spec can fail.
pub fn resolve(spec: &str, root: &str, home: Option<&str>) -> (r: Result<String, Failure>)
    ensures
        agrees(r, resolved(spec@, root@, text_of(home)), spec@),
{
    let len: usize = spec.unicode_len();
    if len >= 1 && spec.get_char(0) == '~' && (len == 1 || spec.get_char(1) == '/') {
        match home {
            None => Err(Failure::new(Reason::HomeUnset, spec)),
            Some(h) => {
                let mut start: usize = 1;
                while start < len && spec.get_char(start) == '/'
                    invariant
                        1 <= start <= len,
                        len == spec@.len(),
                        forall|i: int| 1 <= i < start ==> spec@[i] == '/',
                    decreases len - start,
                {
                    start += 1;
                }
                let rest = spec.substring_char(start, len);
                proof {
                    let tail = spec@.skip(1);
                    lemma_without_leading_separators(tail, start - 1);
                    assert(tail.skip(start - 1) == spec@.subrange(start as int, len as int));
                }
                Ok(join(h, rest))
            },
        }
    } else {
        Ok(join(root, spec))
    }
}

/// A spec that does not begin with a tilde resolves to itself joined
/// onto the root: the home directory plays no part.
pub proof fn law_plain_spec_is_joined_onto_root(
    spec: Seq<char>,
    root: Seq<char>,
    home: Option<Seq<char>>,
)
    requires
        spec.len() == 0 || spec[0] != '~',
    ensures
        resolved(spec, root, home) == Ok::<Seq<char>, Reason>(joined(root, spec)),
{
}

/// So does a spec whose first component merely begins with a tilde.
pub proof fn law_tilde_name_is_joined_onto_root(
    spec: Seq<char>,
    root: Seq<char>,
    home: Option<Seq<char>>,
)
    requires
        spec.len() >= 2,
        spec[0] == '~',
        spec[1] != '/',
    ensures
        resolved(spec, root, home) == Ok::<Seq<char>, Reason>(joined(root, spec)),
{
}

/// A tilde followed by nothing, or by a separator and more, resolves to
/// what follows joined onto the home directory, whatever the root is.
pub proof fn law_home_spec_is_joined_onto_home(
    rest: Seq<char>,
    root: Seq<char>,
    other_root: Seq<char>,
    home: Seq<char>,
)
    requires
        rest.len() == 0 || rest[0] == '/',
    ensures
        resolved(seq!['~'] + rest, root, Some(home)) == Ok::<Seq<char>, Reason>(
            joined(home, without_leading_separators(rest)),
        ),
        resolved(seq!['~'] + rest, root, Some(home)) == resolved(
            seq!['~'] + rest,
            other_root,
            Some(home),
        ),
{
    assert((seq!['~'] + rest).skip(1) == rest);
}

/// A tilde alone resolves to the home directory itself, with nothing
/// added behind it.
pub proof fn law_tilde_alone_is_home(root: Seq<char>, home: Seq<char>)
    ensures
        resolved(seq!['~'], root, Some(home)) == Ok::<Seq<char>, Reason>(home),
{
}

/// Below the home directory a relative remainder is appended behind one
/// separator: `~/` and `rest` resolve to the home directory, a separator
/// and `rest`, where the home directory does not itself end in one.
pub proof fn law_home_spec_appends(rest: Seq<char>, root: Seq<char>, home: Seq<char>)
    requires
        rest.len() > 0,
        rest[0] != '/',
        home.len() > 0,
        home.last() != '/',
    ensures
        resolved(seq!['~', '/'] + rest, root, Some(home)) == Ok::<Seq<char>, Reason>(
            home + seq!['/'] + rest,
        ),
{
    let spec = seq!['~', '/'] + rest;
    let tail = spec.skip(1);
    lemma_without_leading_separators(tail, 1);
    assert(tail.skip(1) == rest);
}

} // verus!
