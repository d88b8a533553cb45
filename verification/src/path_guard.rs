use vstd::prelude::*;

verus! {

// ---------------------------------------------------------------------------
// Character-level helpers
// ---------------------------------------------------------------------------

/// The code point of `c` after ASCII lower-casing: upper-case ASCII letters
/// map to their lower-case forms, every other character is unchanged.
pub open spec fn lower_char_val(c: char) -> int {
    if 'A' <= c && c <= 'Z' {
        c as int + 32
    } else {
        c as int
    }
}

/// Equality of two character sequences up to ASCII case.
pub open spec fn eq_ignore_ascii_case(a: Seq<char>, b: Seq<char>) -> bool {
    &&& a.len() == b.len()
    &&& forall|i: int| 0 <= i < a.len() ==> lower_char_val(a[i]) == lower_char_val(b[i])
}

/// ASCII lower-casing of a single character.
fn lower_ascii_char(c: char) -> (r: char)
    ensures
        r as int == lower_char_val(c),
{
    if 'A' <= c && c <= 'Z' {
        ((c as u8) + 32) as char
    } else {
        c
    }
}

// ---------------------------------------------------------------------------
// Path anatomy: file name, extension, absoluteness
// ---------------------------------------------------------------------------

/// The characters of `s` strictly after the last occurrence of `c`,
/// or all of `s` when `c` does not occur.
pub open spec fn suffix_after_last(s: Seq<char>, c: char) -> Seq<char>
    decreases s.len(),
{
    if s.len() == 0 {
        Seq::empty()
    } else if s[s.len() - 1] == c {
        Seq::empty()
    } else {
        suffix_after_last(s.drop_last(), c).push(s[s.len() - 1])
    }
}

/// The final path segment: everything after the last `/` separator.
/// Deliberately stricter than the platform path API, which drops a
/// trailing separator: here a path that ends in `/` has an empty file
/// name, hence no extension, and the guard refuses it.
pub open spec fn file_name_of(path: Seq<char>) -> Seq<char> {
    suffix_after_last(path, '/')
}

/// A file name has an extension when a dot occurs after its first character;
/// a name that is nothing but a leading dot (a hidden file) has none.
pub open spec fn has_extension(f: Seq<char>) -> bool {
    exists|i: int| 1 <= i < f.len() && f[i] == '.'
}

/// The extension of a file name: everything after its last dot.
pub open spec fn extension_of(f: Seq<char>) -> Seq<char> {
    suffix_after_last(f, '.')
}

/// A path is absolute when it starts with the root separator.
pub open spec fn is_absolute(path: Seq<char>) -> bool {
    path.len() > 0 && path[0] == '/'
}

/// The path's file name carries extension `lit`, compared without regard
/// to ASCII case.
pub open spec fn ext_is(path: Seq<char>, lit: Seq<char>) -> bool {
    &&& has_extension(file_name_of(path))
    &&& eq_ignore_ascii_case(extension_of(file_name_of(path)), lit)
}

/// The fixed allow-list of font file extensions.
pub open spec fn has_allowed_extension(path: Seq<char>) -> bool {
    ||| ext_is(path, "ttf"@)
    ||| ext_is(path, "otf"@)
    ||| ext_is(path, "woff"@)
    ||| ext_is(path, "woff2"@)
    ||| ext_is(path, "ttc"@)
}

/// A path may be served when it is absolute (in the Unix reading: it
/// starts with `/`) and its extension is on the allow-list. Per
/// `file_name_of`, a path ending in a separator has no extension and is
/// refused.
pub open spec fn is_servable(path: Seq<char>) -> bool {
    is_absolute(path) && has_allowed_extension(path)
}

/// The MIME type announced for a path, by its extension alone.
pub open spec fn mime_of(path: Seq<char>) -> Seq<char> {
    if ext_is(path, "ttf"@) {
        "font/ttf"@
    } else if ext_is(path, "otf"@) {
        "font/otf"@
    } else if ext_is(path, "woff"@) {
        "application/font-woff"@
    } else if ext_is(path, "woff2"@) {
        "application/font-woff2"@
    } else if ext_is(path, "ttc"@) {
        "font/collection"@
    } else {
        "application/octet-stream"@
    }
}

// ---------------------------------------------------------------------------
// Laws
// ---------------------------------------------------------------------------

/// Law: a path whose extension is not on the allow-list is never servable,
/// whatever else it looks like.
pub proof fn lemma_unservable_without_allowed_extension(path: Seq<char>)
    ensures
        !has_allowed_extension(path) ==> !is_servable(path),
{
}

/// Law: a relative path is never servable, regardless of its extension.
pub proof fn lemma_relative_never_servable(path: Seq<char>)
    ensures
        !is_absolute(path) ==> !is_servable(path),
{
}

/// Law: the MIME lookup is total: every path maps to exactly one of five
/// font MIME types, and to the octet-stream default exactly when the
/// extension is not on the allow-list.
pub proof fn lemma_mime_total(path: Seq<char>)
    ensures
        mime_of(path) == "font/ttf"@ || mime_of(path) == "font/otf"@ || mime_of(path)
            == "application/font-woff"@ || mime_of(path) == "application/font-woff2"@ || mime_of(
            path,
        ) == "font/collection"@ || mime_of(path) == "application/octet-stream"@,
        mime_of(path) == "application/octet-stream"@ <==> !has_allowed_extension(path),
{
    reveal_strlit("font/ttf");
    reveal_strlit("font/otf");
    reveal_strlit("application/font-woff");
    reveal_strlit("application/font-woff2");
    reveal_strlit("font/collection");
    reveal_strlit("application/octet-stream");
    assert("font/ttf"@.len() == 8);
    assert("font/otf"@.len() == 8);
    assert("application/font-woff"@.len() == 21);
    assert("application/font-woff2"@.len() == 22);
    assert("font/collection"@.len() == 15);
    assert("application/octet-stream"@.len() == 24);
}

// ---------------------------------------------------------------------------
// Proof helpers relating index search to `suffix_after_last`
// ---------------------------------------------------------------------------

proof fn lemma_suffix_after_last_at(s: Seq<char>, c: char, i: int)
    requires
        0 <= i < s.len(),
        s[i] == c,
        forall|j: int| i < j < s.len() ==> s[j] != c,
    ensures
        suffix_after_last(s, c) == s.subrange(i + 1, s.len() as int),
    decreases s.len(),
{
    if i == s.len() - 1 {
        assert(suffix_after_last(s, c) =~= s.subrange(i + 1, s.len() as int));
    } else {
        let t = s.drop_last();
        assert(forall|j: int| i < j < t.len() ==> t[j] != c);
        lemma_suffix_after_last_at(t, c, i);
        assert(suffix_after_last(s, c) =~= s.subrange(i + 1, s.len() as int));
    }
}

proof fn lemma_suffix_after_last_absent(s: Seq<char>, c: char)
    requires
        forall|j: int| 0 <= j < s.len() ==> s[j] != c,
    ensures
        suffix_after_last(s, c) == s,
    decreases s.len(),
{
    if s.len() > 0 {
        lemma_suffix_after_last_absent(s.drop_last(), c);
        assert(suffix_after_last(s, c) =~= s);
    } else {
        assert(suffix_after_last(s, c) =~= s);
    }
}

// ---------------------------------------------------------------------------
// Executable path analysis
// ---------------------------------------------------------------------------

/// The largest index at which `c` occurs in `s`, if any.
fn find_last(s: &str, c: char) -> (r: Option<usize>)
    ensures
        match r {
            Some(i) => i < s@.len() && s@[i as int] == c && (forall|j: int|
                i < j < s@.len() ==> s@[j] != c),
            None => forall|j: int| 0 <= j < s@.len() ==> s@[j] != c,
        },
{
    let n = s.unicode_len();
    let mut i: usize = n;
    while i > 0
        invariant
            i <= n,
            n == s@.len(),
            forall|j: int| i <= j < s@.len() ==> s@[j] != c,
        decreases i,
    {
        i = i - 1;
        if s.get_char(i) == c {
            return Some(i);
        }
    }
    None
}

/// Where the extension of the path's file name starts within the path, if
/// the file name has one: the extension is then exactly the characters from
/// that index to the end of the path.
fn extension_start(path: &str) -> (r: Option<usize>)
    ensures
        match r {
            Some(k) => {
                &&& k <= path@.len()
                &&& has_extension(file_name_of(path@))
                &&& extension_of(file_name_of(path@)) == path@.subrange(
                    k as int,
                    path@.len() as int,
                )
            },
            None => !has_extension(file_name_of(path@)),
        },
{
    let n = path.unicode_len();
    let slash = find_last(path, '/');
    let fstart: usize = match slash {
        Some(i) => i + 1,
        None => 0,
    };
    proof {
        match slash {
            Some(i) => lemma_suffix_after_last_at(path@, '/', i as int),
            None => lemma_suffix_after_last_absent(path@, '/'),
        }
        assert(file_name_of(path@) =~= path@.subrange(fstart as int, n as int));
    }
    let ghost f = file_name_of(path@);
    let dot = find_last(path, '.');
    match dot {
        None => {
            proof {
                assert forall|i: int| 1 <= i < f.len() implies f[i] != '.' by {
                    assert(f[i] == path@[fstart + i]);
                }
            }
            None
        },
        Some(d) => {
            if d > fstart {
                proof {
                    assert(f[d - fstart] == path@[d as int]);
                    assert(has_extension(f));
                    assert(forall|j: int| d - fstart < j < f.len() ==> f[j] == path@[fstart + j]);
                    lemma_suffix_after_last_at(f, '.', d - fstart);
                    assert(extension_of(f) =~= path@.subrange(d + 1, n as int));
                }
                Some(d + 1)
            } else {
                proof {
                    assert forall|i: int| 1 <= i < f.len() implies f[i] != '.' by {
                        assert(f[i] == path@[fstart + i]);
                        assert(fstart + i > d);
                    }
                }
                None
            }
        },
    }
}

/// The final path segment of `path`, as a fresh string.
pub fn file_name_string(path: &str) -> (r: String)
    ensures
        r@ == file_name_of(path@),
{
    let n = path.unicode_len();
    match find_last(path, '/') {
        Some(i) => {
            proof {
                lemma_suffix_after_last_at(path@, '/', i as int);
            }
            let tail = path.substring_char(i + 1, n);
            tail.to_owned()
        },
        None => {
            proof {
                lemma_suffix_after_last_absent(path@, '/');
            }
            path.to_owned()
        },
    }
}

/// Whether the characters of `s` from index `start` to the end equal `lit`
/// up to ASCII case.
fn tail_eq_ci(s: &str, start: usize, lit: &str) -> (r: bool)
    requires
        start <= s@.len(),
    ensures
        r == eq_ignore_ascii_case(s@.subrange(start as int, s@.len() as int), lit@),
{
    let n = s.unicode_len();
    let m = lit.unicode_len();
    if n - start != m {
        return false;
    }
    let mut i: usize = 0;
    while i < m
        invariant
            i <= m,
            start + m == n,
            n == s@.len(),
            m == lit@.len(),
            forall|j: int| 0 <= j < i ==> lower_char_val(s@[start + j]) == lower_char_val(lit@[j]),
        decreases m - i,
    {
        if lower_ascii_char(s.get_char(start + i)) != lower_ascii_char(lit.get_char(i)) {
            proof {
                let bad = s@.subrange(start as int, n as int);
                assert(bad[i as int] == s@[start + i]);
            }
            return false;
        }
        i = i + 1;
    }
    proof {
        let tail = s@.subrange(start as int, n as int);
        assert(forall|j: int| 0 <= j < m ==> tail[j] == s@[start + j]);
    }
    true
}

// ---------------------------------------------------------------------------
// Public guard functions
// ---------------------------------------------------------------------------

/// Whether `path` may be served: it must be absolute and carry one of the
/// allowed font extensions, compared without regard to ASCII case.
pub fn is_valid_path(path: &str) -> (r: bool)
    ensures
        r == is_servable(path@),
{
    let n = path.unicode_len();
    if n == 0 || path.get_char(0) != '/' {
        return false;
    }
    match extension_start(path) {
        None => false,
        Some(k) => tail_eq_ci(path, k, "ttf") || tail_eq_ci(path, k, "otf") || tail_eq_ci(
            path,
            k,
            "woff",
        ) || tail_eq_ci(path, k, "woff2") || tail_eq_ci(path, k, "ttc"),
    }
}

/// The MIME type to announce for `path`, decided by its extension alone,
/// without regard to ASCII case; unknown extensions fall back to the
/// generic octet-stream type.
pub fn determine_font_mime_type(path: &str) -> (r: &'static str)
    ensures
        r@ == mime_of(path@),
{
    match extension_start(path) {
        None => "application/octet-stream",
        Some(k) => {
            if tail_eq_ci(path, k, "ttf") {
                "font/ttf"
            } else if tail_eq_ci(path, k, "otf") {
                "font/otf"
            } else if tail_eq_ci(path, k, "woff") {
                "application/font-woff"
            } else if tail_eq_ci(path, k, "woff2") {
                "application/font-woff2"
            } else if tail_eq_ci(path, k, "ttc") {
                "font/collection"
            } else {
                "application/octet-stream"
            }
        },
    }
}

} // verus!
