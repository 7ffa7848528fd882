//! Extension-based format resolution: the fast path that classifies a file by
//! its name alone, before any byte of content is read.

use vstd::prelude::*;
use vstd::string::StrSliceExecFns;

verus! {

/// The formats the resolver can name from a file extension. `Unknown` stands
/// for a missing or unrecognized extension and sends the decoder to
/// content-based sniffing instead.
#[derive(Clone, Copy, Debug, PartialEq, Eq, Structural)]
pub enum FormatHint {
    Avif,
    Jpeg,
    Png,
    Webp,
    Gif,
    Tiff,
    Bmp,
    Unknown,
}

/// Character `a` of a path equals table character `b` (a lower-case ASCII
/// letter) up to ASCII case.
pub open spec fn char_matches_ci(a: char, b: char) -> bool {
    a == b || a as u32 + 32 == b as u32
}

/// The extension `e` spells `lit` (a lower-case table entry), ignoring ASCII
/// case.
pub open spec fn ext_matches(e: Seq<char>, lit: Seq<char>) -> bool {
    e.len() == lit.len() && (forall|i: int| 0 <= i < e.len() ==> char_matches_ci(e[i], lit[i]))
}

/// Position `j` holds the dot that starts `path`'s extension: a dot that is
/// not the first character of the file name, with no later dot and no `/`
/// separator at any later position.
pub open spec fn ext_dot_at(path: Seq<char>, j: int) -> bool {
    &&& 0 < j < path.len()
    &&& path[j] == '.'
    &&& path[j - 1] != '/'
    &&& forall|k: int| j < k < path.len() ==> path[k] != '.' && path[k] != '/'
}

/// The file name's extension, when it has one: everything after the final dot
/// of the final path component, provided that dot does not begin the name.
pub open spec fn spec_extension(path: Seq<char>) -> Option<Seq<char>> {
    if exists|j: int| ext_dot_at(path, j) {
        Some(path.subrange((choose|j: int| ext_dot_at(path, j)) + 1, path.len() as int))
    } else {
        None
    }
}

/// The fixed extension table, consulted case-insensitively.
pub open spec fn spec_hint_from_ext(e: Seq<char>) -> FormatHint {
    if ext_matches(e, "avif"@) {
        FormatHint::Avif
    } else if ext_matches(e, "jpg"@) || ext_matches(e, "jpeg"@) {
        FormatHint::Jpeg
    } else if ext_matches(e, "png"@) {
        FormatHint::Png
    } else if ext_matches(e, "webp"@) {
        FormatHint::Webp
    } else if ext_matches(e, "gif"@) {
        FormatHint::Gif
    } else if ext_matches(e, "tiff"@) || ext_matches(e, "tif"@) {
        FormatHint::Tiff
    } else if ext_matches(e, "bmp"@) {
        FormatHint::Bmp
    } else {
        FormatHint::Unknown
    }
}

/// What the resolver returns for `path`: the table entry for its extension,
/// or `Unknown` when the name has no extension.
pub open spec fn spec_resolve_format_hint(path: Seq<char>) -> FormatHint {
    match spec_extension(path) {
        Some(e) => spec_hint_from_ext(e),
        None => FormatHint::Unknown,
    }
}

/// Two positions satisfying `ext_dot_at` coincide: the extension dot is the
/// last dot of the path, and there is only one last dot.
proof fn lemma_ext_dot_unique(path: Seq<char>, a: int, b: int)
    requires
        ext_dot_at(path, a),
        ext_dot_at(path, b),
    ensures
        a == b,
{
    if a < b {
        assert(path[b] == '.');
    } else if b < a {
        assert(path[a] == '.');
    }
}

/// The characters of `path`, in order.
fn path_chars(path: &str) -> (r: Vec<char>)
    ensures
        r@ == path@,
{
    let n = path.unicode_len();
    let mut r: Vec<char> = Vec::new();
    let mut i: usize = 0;
    while i < n
        invariant
            i <= n,
            n == path@.len(),
            r@ == path@.subrange(0, i as int),
        decreases n - i,
    {
        r.push(path.get_char(i));
        proof {
            assert(r@ =~= path@.subrange(0, i + 1));
        }
        i += 1;
    }
    proof {
        assert(path@.subrange(0, n as int) =~= path@);
    }
    r
}

/// The tail of `cs` starting at `start` spells `lit`, ignoring ASCII case.
fn seg_matches(cs: &Vec<char>, start: usize, lit: &str) -> (r: bool)
    requires
        start <= cs@.len(),
    ensures
        r == ext_matches(cs@.subrange(start as int, cs@.len() as int), lit@),
{
    let m = lit.unicode_len();
    if cs.len() - start != m {
        return false;
    }
    let mut i: usize = 0;
    while i < m
        invariant
            i <= m,
            m == lit@.len(),
            start + m == cs@.len(),
            start + m <= usize::MAX,
            forall|k: int| 0 <= k < i ==> char_matches_ci(cs@[start + k], lit@[k]),
        decreases m - i,
    {
        let a = cs[start + i];
        let b = lit.get_char(i);
        proof {
            vstd::utf8::char_is_scalar(a);
        }
        if !(a == b || (a as u32) + 32 == (b as u32)) {
            proof {
                assert(!char_matches_ci(cs@.subrange(start as int, cs@.len() as int)[i as int],
                    lit@[i as int]));
            }
            return false;
        }
        i += 1;
    }
    proof {
        assert forall|k: int| 0 <= k < lit@.len() implies char_matches_ci(
            cs@.subrange(start as int, cs@.len() as int)[k],
            lit@[k],
        ) by {
            assert(cs@.subrange(start as int, cs@.len() as int)[k] == cs@[start + k]);
        }
    }
    true
}

/// The table lookup for the extension that starts at `start` in `cs`.
fn hint_from_ext(cs: &Vec<char>, start: usize) -> (r: FormatHint)
    requires
        start <= cs@.len(),
    ensures
        r == spec_hint_from_ext(cs@.subrange(start as int, cs@.len() as int)),
{
    if seg_matches(cs, start, "avif") {
        FormatHint::Avif
    } else if seg_matches(cs, start, "jpg") || seg_matches(cs, start, "jpeg") {
        FormatHint::Jpeg
    } else if seg_matches(cs, start, "png") {
        FormatHint::Png
    } else if seg_matches(cs, start, "webp") {
        FormatHint::Webp
    } else if seg_matches(cs, start, "gif") {
        FormatHint::Gif
    } else if seg_matches(cs, start, "tiff") || seg_matches(cs, start, "tif") {
        FormatHint::Tiff
    } else if seg_matches(cs, start, "bmp") {
        FormatHint::Bmp
    } else {
        FormatHint::Unknown
    }
}

/// Classify `path` by its extension alone: lower-case the extension of the
/// final path component and look it up in the fixed table; a missing or
/// unrecognized extension resolves to `Unknown`. Pure, total, and free of any
/// file access.
pub fn resolve_format_hint(path: &str) -> (r: FormatHint)
    ensures
        r == spec_resolve_format_hint(path@),
{
    let cs = path_chars(path);
    let n = cs.len();
    let mut last_dot: Option<usize> = None;
    let mut last_slash: Option<usize> = None;
    let mut i: usize = 0;
    while i < n
        invariant
            i <= n,
            n == cs@.len(),
            cs@ == path@,
            match last_dot {
                Some(j) => j < i && cs@[j as int] == '.' && (forall|k: int|
                    j < k < i ==> cs@[k] != '.'),
                None => forall|k: int| 0 <= k < i ==> cs@[k] != '.',
            },
            match last_slash {
                Some(s) => s < i && cs@[s as int] == '/' && (forall|k: int|
                    s < k < i ==> cs@[k] != '/'),
                None => forall|k: int| 0 <= k < i ==> cs@[k] != '/',
            },
        decreases n - i,
    {
        let c = cs[i];
        if c == '.' {
            last_dot = Some(i);
        }
        if c == '/' {
            last_slash = Some(i);
        }
        i += 1;
    }
    if let Some(j) = last_dot {
        let sep_after = match last_slash {
            Some(s) => s > j,
            None => false,
        };
        let first_of_name = j == 0 || cs[j - 1] == '/';
        if !sep_after && !first_of_name {
            proof {
                assert(ext_dot_at(path@, j as int)) by {
                    assert forall|k: int| j < k < path@.len() implies path@[k] != '.'
                        && path@[k] != '/' by {
                        if path@[k] == '/' {
                            assert(last_slash matches Some(s) && s >= k);
                        }
                    }
                }
                let jj = choose|jj: int| ext_dot_at(path@, jj);
                lemma_ext_dot_unique(path@, j as int, jj);
            }
            hint_from_ext(&cs, j + 1)
        } else {
            proof {
                assert forall|jj: int| !ext_dot_at(path@, jj) by {
                    if ext_dot_at(path@, jj) {
                        assert(path@[jj] == '.');
                        assert(jj <= j);
                        assert(jj == j);
                        if sep_after {
                            let s = last_slash->Some_0;
                            assert(path@[s as int] == '/');
                        }
                    }
                }
            }
            FormatHint::Unknown
        }
    } else {
        proof {
            assert forall|jj: int| !ext_dot_at(path@, jj) by {
                if ext_dot_at(path@, jj) {
                    assert(path@[jj] == '.');
                }
            }
        }
        FormatHint::Unknown
    }
}

} // verus!
