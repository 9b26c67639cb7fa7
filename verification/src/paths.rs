//! Path arithmetic on plain strings: joining fragments, locating the first
//! separator, and deriving the home-directory link for a walked dotfile
//! entry from its path relative to the bundle root.
use vstd::prelude::*;

verus! {

/// The path that results from joining `base` and `rest` with one separator.
pub open spec fn spec_join(base: Seq<char>, rest: Seq<char>) -> Seq<char> {
    base + seq!['/'] + rest
}

/// Join two path fragments with a single `/` separator.
pub fn join_path(base: &str, rest: &str) -> (r: String)
    ensures
        r@ == spec_join(base@, rest@),
{
    let mut s = String::from_str(base);
    s.append("/");
    s.append(rest);
    proof {
        reveal_strlit("/");
        assert(s@ =~= spec_join(base@, rest@));
    }
    s
}

/// Index of the first `/` in `s`, or `s.len()` if there is none.
pub open spec fn first_sep(s: Seq<char>) -> int
    decreases s.len(),
{
    if s.len() == 0 {
        0
    } else if s[0] == '/' {
        0
    } else {
        1 + first_sep(s.subrange(1, s.len() as int))
    }
}

proof fn lemma_first_sep_at(s: Seq<char>, i: int)
    requires
        0 <= i <= s.len(),
        forall|j: int| 0 <= j < i ==> s[j] != '/',
        i < s.len() ==> s[i] == '/',
    ensures
        first_sep(s) == i,
    decreases s.len(),
{
    if s.len() == 0 {
    } else if s[0] == '/' {
        assert(i == 0);
    } else {
        let t = s.subrange(1, s.len() as int);
        assert(forall|j: int| 0 <= j < i - 1 ==> t[j] == s[j + 1] && s[j + 1] != '/');
        assert(i - 1 < t.len() ==> t[i - 1] == s[i]);
        lemma_first_sep_at(t, i - 1);
    }
}

/// The link under `home` for an entry whose path relative to the bundle root
/// is `diff`: the first segment (the package name) is dropped and the rest is
/// resolved against `home`. A bare package name maps to `home` itself.
pub open spec fn link_of(diff: Seq<char>, home: Seq<char>) -> Seq<char> {
    if first_sep(diff) == diff.len() {
        home
    } else {
        home + diff.subrange(first_sep(diff), diff.len() as int)
    }
}

/// Compute the home-directory link for a relative entry path: drop the
/// leading package segment and resolve the remainder against `home`.
pub fn link_target(diff: &str, home: &str) -> (r: String)
    ensures
        r@ == link_of(diff@, home@),
{
    let n = diff.unicode_len();
    let mut i: usize = 0;
    while i < n && diff.get_char(i) != '/'
        invariant
            i <= n,
            n == diff@.len(),
            forall|j: int| 0 <= j < i ==> diff@[j] != '/',
        decreases n - i,
    {
        i = i + 1;
    }
    proof {
        lemma_first_sep_at(diff@, i as int);
    }
    if i == n {
        String::from_str(home)
    } else {
        let rest = diff.substring_char(i, n);
        let mut s = String::from_str(home);
        s.append(rest);
        s
    }
}

/// The relative path from `base` to `path`, as the path-difference routine
/// of the `pathdiff` crate computes it: a pure function of the two paths.
pub uninterp spec fn diff_of(path: Seq<char>, base: Seq<char>) -> Option<Seq<char>>;

/// Relies on `pathdiff::diff_paths`: constructs the relative path from the
/// base directory to `path`, from the two arguments alone.
#[verifier::external_body]
pub(crate) fn path_diff(path: &str, base: &str) -> (r: Option<String>)
    ensures
        r matches Some(d) ==> diff_of(path@, base@) matches Some(e) && d@ == e,
        r is None ==> diff_of(path@, base@) is None,
{
    pathdiff::diff_paths(std::path::Path::new(path), std::path::Path::new(base))
        .and_then(|p| p.to_str().map(|s| s.to_string()))
}

} // verus!
