//! Path dissection for the metadata resolver.
//!
//! Paths arrive as plain text from the operating system.  The resolver needs
//! three things from them: the text after the last backslash (the file
//! name), the text after the last dot (the extension, compared ignoring
//! ASCII case), and the file name with a trailing `.exe` stripped (the
//! executable's bare name).

use vstd::prelude::*;
use vstd::string::*;

verus! {

/// What the metadata resolver does with a path, decided by its extension.
#[derive(Clone, Copy, Debug, PartialEq, Eq, Structural)]
pub enum PathKind {
    /// An executable, resolved directly.
    Executable,
    /// A shell shortcut, dereferenced to its target first.
    Shortcut,
    /// Anything else; the resolver refuses it.
    Unsupported,
}

/// The characters after the last occurrence of `sep`: the whole text when
/// `sep` does not occur, empty when the text ends with `sep`.
pub open spec fn spec_after_last(s: Seq<char>, sep: char) -> Seq<char>
    decreases s.len(),
{
    if s.len() == 0 {
        s
    } else if s.last() == sep {
        Seq::<char>::empty()
    } else {
        spec_after_last(s.drop_last(), sep).push(s.last())
    }
}

proof fn lemma_after_last_no_sep(s: Seq<char>, sep: char)
    requires
        forall|i: int| 0 <= i < s.len() ==> s[i] != sep,
    ensures
        spec_after_last(s, sep) == s,
    decreases s.len(),
{
    if s.len() > 0 {
        assert forall|i: int| 0 <= i < s.drop_last().len() implies s.drop_last()[i] != sep by {
            assert(s.drop_last()[i] == s[i]);
        }
        lemma_after_last_no_sep(s.drop_last(), sep);
        assert(s.drop_last().push(s.last()) =~= s);
    }
}

proof fn lemma_after_last_from(s: Seq<char>, sep: char, k: int)
    requires
        0 <= k < s.len(),
        s[k] == sep,
        forall|i: int| k < i < s.len() ==> s[i] != sep,
    ensures
        spec_after_last(s, sep) == s.subrange(k + 1, s.len() as int),
    decreases s.len(),
{
    if k == s.len() - 1 {
        assert(s.last() == sep);
        assert(s.subrange(k + 1, s.len() as int) =~= Seq::<char>::empty());
    } else {
        assert(s.last() != sep);
        let d = s.drop_last();
        assert(d[k] == s[k]);
        assert forall|i: int| k < i < d.len() implies d[i] != sep by {
            assert(d[i] == s[i]);
        }
        lemma_after_last_from(d, sep, k);
        assert(d.subrange(k + 1, d.len() as int).push(s.last()) =~= s.subrange(
            k + 1,
            s.len() as int,
        ));
    }
}

/// Returns the text after the last occurrence of `sep`, as
/// `spec_after_last` describes it.
pub fn after_last_char(s: &str, sep: char) -> (r: String)
    ensures
        r@ == spec_after_last(s@, sep),
{
    let n = s.unicode_len();
    let mut k: usize = n;
    while k > 0
        invariant
            k <= n,
            n == s@.len(),
            forall|i: int| k <= i < n ==> s@[i] != sep,
        decreases k,
    {
        if s.get_char(k - 1) == sep {
            let sub = s.substring_char(k, n);
            proof {
                lemma_after_last_from(s@, sep, k - 1);
            }
            return sub.to_owned();
        }
        k = k - 1;
    }
    proof {
        lemma_after_last_no_sep(s@, sep);
    }
    s.to_owned()
}

/// The extension of a path: everything after the last dot.  A path without
/// a dot yields the whole path, which no extension test then matches the
/// way a real extension would.
pub open spec fn spec_extension(path: Seq<char>) -> Seq<char> {
    spec_after_last(path, '.')
}

/// Whether the extension reads `exe`, ignoring ASCII case.
pub open spec fn spec_is_exe_ext(path: Seq<char>) -> bool {
    let e = spec_extension(path);
    e.len() == 3 && (e[0] == 'e' || e[0] == 'E') && (e[1] == 'x' || e[1] == 'X') && (e[2] == 'e'
        || e[2] == 'E')
}

/// Whether the extension reads `lnk`, ignoring ASCII case.
pub open spec fn spec_is_lnk_ext(path: Seq<char>) -> bool {
    let e = spec_extension(path);
    e.len() == 3 && (e[0] == 'l' || e[0] == 'L') && (e[1] == 'n' || e[1] == 'N') && (e[2] == 'k'
        || e[2] == 'K')
}

/// The dispatch of the metadata resolver on a path.
pub open spec fn spec_path_kind(path: Seq<char>) -> PathKind {
    if spec_is_exe_ext(path) {
        PathKind::Executable
    } else if spec_is_lnk_ext(path) {
        PathKind::Shortcut
    } else {
        PathKind::Unsupported
    }
}

/// Classifies a path by its extension.
pub fn path_kind(path: &str) -> (k: PathKind)
    ensures
        k == spec_path_kind(path@),
{
    let ext = after_last_char(path, '.');
    let e = ext.as_str();
    let n = e.unicode_len();
    if n == 3 {
        let c0 = e.get_char(0);
        let c1 = e.get_char(1);
        let c2 = e.get_char(2);
        if (c0 == 'e' || c0 == 'E') && (c1 == 'x' || c1 == 'X') && (c2 == 'e' || c2 == 'E') {
            return PathKind::Executable;
        }
        if (c0 == 'l' || c0 == 'L') && (c1 == 'n' || c1 == 'N') && (c2 == 'k' || c2 == 'K') {
            return PathKind::Shortcut;
        }
    }
    PathKind::Unsupported
}

/// Whether the file name itself ends in `.exe`, ignoring ASCII case.
pub open spec fn spec_has_exe_suffix(name: Seq<char>) -> bool {
    let n = name.len() as int;
    n >= 4 && name[n - 4] == '.' && (name[n - 3] == 'e' || name[n - 3] == 'E') && (name[n - 2]
        == 'x' || name[n - 2] == 'X') && (name[n - 1] == 'e' || name[n - 1] == 'E')
}

/// The bare executable name of a path: the final path component, with a
/// trailing `.exe` stripped.
pub open spec fn spec_exe_stem(path: Seq<char>) -> Seq<char> {
    let name = spec_after_last(path, '\\');
    if spec_has_exe_suffix(name) {
        name.take(name.len() - 4)
    } else {
        name
    }
}

/// The file stem of a path: the final path component, cut before its last
/// dot — unless that dot leads the component, in which case the whole
/// component stands (a dotfile has no extension to cut).
pub open spec fn spec_file_stem(path: Seq<char>) -> Seq<char> {
    let name = spec_after_last(path, '\\');
    if name.len() <= 1 {
        name
    } else {
        let rest = name.skip(1);
        let ext = spec_after_last(rest, '.');
        if ext.len() == rest.len() {
            name
        } else {
            name.take(name.len() - ext.len() - 1)
        }
    }
}

/// Derives the file stem of a path, as `spec_file_stem` describes it.
pub fn file_stem(path: &str) -> (r: String)
    ensures
        r@ == spec_file_stem(path@),
{
    let name = after_last_char(path, '\\');
    let s = name.as_str();
    let n = s.unicode_len();
    if n <= 1 {
        return name;
    }
    let mut k: usize = n;
    while k > 1
        invariant
            1 <= k <= n,
            n == s@.len(),
            s@ == spec_after_last(path@, '\\'),
            forall|i: int| k <= i < n ==> s@[i] != '.',
        decreases k,
    {
        if s.get_char(k - 1) == '.' {
            let sub = s.substring_char(0, k - 1);
            proof {
                let rest = s@.skip(1);
                assert(rest[k - 2] == s@[k - 1]);
                assert forall|i: int| k - 2 < i < rest.len() implies rest[i] != '.' by {
                    assert(rest[i] == s@[i + 1]);
                }
                lemma_after_last_from(rest, '.', k - 2);
                assert(spec_after_last(rest, '.').len() == n - k);
                assert(spec_file_stem(path@) =~= s@.subrange(0, k - 1));
            }
            return sub.to_owned();
        }
        k = k - 1;
    }
    proof {
        let rest = s@.skip(1);
        assert forall|i: int| 0 <= i < rest.len() implies rest[i] != '.' by {
            assert(rest[i] == s@[i + 1]);
        }
        lemma_after_last_no_sep(rest, '.');
    }
    name
}

/// Derives the bare executable name from a path.
pub fn exe_stem(path: &str) -> (r: String)
    ensures
        r@ == spec_exe_stem(path@),
{
    let name = after_last_char(path, '\\');
    let s = name.as_str();
    let n = s.unicode_len();
    if n >= 4 {
        let dot = s.get_char(n - 4);
        let c1 = s.get_char(n - 3);
        let c2 = s.get_char(n - 2);
        let c3 = s.get_char(n - 1);
        if dot == '.' && (c1 == 'e' || c1 == 'E') && (c2 == 'x' || c2 == 'X') && (c3 == 'e' || c3
            == 'E') {
            let sub = s.substring_char(0, n - 4);
            proof {
                assert(s@.subrange(0, n - 4 as int) =~= s@.take(s@.len() - 4));
            }
            return sub.to_owned();
        }
    }
    name
}

} // verus!
