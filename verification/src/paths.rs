use vstd::prelude::*;
use vstd::string::StrSliceExecFns;
use vstd::string::StringExecFns;

use crate::strutil::str_eq;

verus! {

/// The index just after the last occurrence of `c` in `s`, or 0 when `c`
/// does not occur at all.
pub open spec fn scan_back(s: Seq<char>, c: char) -> int
    decreases s.len(),
{
    if s.len() == 0 {
        0
    } else if s[s.len() - 1] == c {
        s.len() as int
    } else {
        scan_back(s.drop_last(), c)
    }
}

/// When no occurrence of `c` lies at or after position `i`, scanning the
/// whole sequence is the same as scanning its prefix up to `i`.
pub proof fn lemma_scan_back_clear_suffix(s: Seq<char>, c: char, i: int)
    requires
        0 <= i <= s.len(),
        forall|j: int| i <= j < s.len() ==> s[j] != c,
    ensures
        scan_back(s, c) == scan_back(s.subrange(0, i), c),
    decreases s.len(),
{
    if i == s.len() {
        assert(s.subrange(0, i) =~= s);
    } else {
        assert(s[s.len() - 1] != c);
        lemma_scan_back_clear_suffix(s.drop_last(), c, i);
        assert(s.drop_last().subrange(0, i) =~= s.subrange(0, i));
    }
}

/// Finds, within `p` from position `lo` on, the index just after the last
/// occurrence of `c`; `lo` itself when there is none.
pub fn scan_back_from(p: &str, lo: usize, c: char) -> (r: usize)
    requires
        lo <= p@.len(),
    ensures
        lo <= r <= p@.len(),
        r - lo == scan_back(p@.subrange(lo as int, p@.len() as int), c),
{
    let n = p.unicode_len();
    let ghost s = p@.subrange(lo as int, n as int);
    let mut i: usize = n;
    while i > lo
        invariant
            lo <= i <= n,
            n == p@.len(),
            s == p@.subrange(lo as int, n as int),
            forall|j: int| i <= j < n ==> p@[j] != c,
        decreases i,
    {
        if p.get_char(i - 1) == c {
            proof {
                assert(forall|j: int| i - lo <= j < s.len() ==> s[j] == p@[j + lo] && s[j] != c);
                lemma_scan_back_clear_suffix(s, c, i - lo);
                let t = s.subrange(0, i - lo);
                assert(t =~= p@.subrange(lo as int, i as int));
                assert(t[t.len() - 1] == p@[i - 1]);
                assert(scan_back(t, c) == t.len());
            }
            return i;
        }
        i -= 1;
    }
    proof {
        assert(forall|j: int| 0 <= j < s.len() ==> s[j] == p@[j + lo] && s[j] != c);
        lemma_scan_back_clear_suffix(s, c, 0);
        assert(s.subrange(0, 0) =~= Seq::<char>::empty());
    }
    lo
}

/// The index in `p` where its file name begins: just after the last `/`.
pub open spec fn file_name_start(p: Seq<char>) -> int {
    scan_back(p, '/')
}

/// The file-name part of the path: everything after the last `/`.
pub open spec fn file_name_of(p: Seq<char>) -> Seq<char> {
    p.subrange(file_name_start(p), p.len() as int)
}

/// The index within a file name just after its last `.`, 0 when none.
pub open spec fn ext_start(name: Seq<char>) -> int {
    scan_back(name, '.')
}

/// The extension: the part of the file name after its last `.`, provided
/// that dot is not the name's first character (a name that only starts
/// with a dot is a hidden file and has no extension).
pub open spec fn extension_of(p: Seq<char>) -> Option<Seq<char>> {
    let name = file_name_of(p);
    if ext_start(name) >= 2 {
        Some(name.subrange(ext_start(name), name.len() as int))
    } else {
        None
    }
}

/// The stem: the file name without its extension and the dot before it
/// (the whole file name when there is no extension).
pub open spec fn stem_of(p: Seq<char>) -> Seq<char> {
    let name = file_name_of(p);
    if ext_start(name) >= 2 {
        name.subrange(0, ext_start(name) - 1)
    } else {
        name
    }
}

/// The destination directory of a resize: the `tmp` child of the source
/// file's own directory.
pub open spec fn dest_dir_of(p: Seq<char>) -> Seq<char> {
    p.subrange(0, file_name_start(p)) + "tmp"@
}

/// The destination file of a resize: `<stem>.png` inside the destination
/// directory. The output extension is always `png`, whatever the source was.
pub open spec fn dest_path_of(p: Seq<char>) -> Seq<char> {
    dest_dir_of(p) + "/"@ + stem_of(p) + ".png"@
}

/// The thumbnail engine's gate: the extension is exactly `jpg` or `png`
/// (case-sensitively; uppercase forms are rejected here).
pub open spec fn is_target_ext(p: Seq<char>) -> bool {
    extension_of(p) == Some("jpg"@) || extension_of(p) == Some("png"@)
}

/// The folder enumerator's filter: the extension is exactly one of the four
/// literals `JPG`, `jpg`, `PNG`, `png`; other case mixtures do not match.
pub open spec fn is_supported_ext(p: Seq<char>) -> bool {
    ||| extension_of(p) == Some("JPG"@)
    ||| extension_of(p) == Some("jpg"@)
    ||| extension_of(p) == Some("PNG"@)
    ||| extension_of(p) == Some("png"@)
}

/// A directory path joined with an entry name, as path concatenation
/// joins them: with a single separator in between.
pub open spec fn join_of(dir: Seq<char>, name: Seq<char>) -> Seq<char> {
    if dir.len() == 0 {
        name
    } else if dir[dir.len() - 1] == '/' {
        dir + name
    } else {
        dir + "/"@ + name
    }
}

/// Returns the extension of the path's file name, if it has one.
pub fn extension_str<'a>(p: &'a str) -> (r: Option<&'a str>)
    ensures
        match r {
            Some(e) => extension_of(p@) == Some(e@),
            None => extension_of(p@) is None,
        },
{
    let n = p.unicode_len();
    let fs = scan_back_from(p, 0, '/');
    let es = scan_back_from(p, fs, '.');
    proof {
        assert(p@.subrange(0, p@.len() as int) =~= p@);
        assert(fs == file_name_start(p@));
        assert(p@.subrange(fs as int, n as int) == file_name_of(p@));
        if es - fs >= 2 {
            assert(file_name_of(p@).subrange(es - fs, n - fs) =~= p@.subrange(
                es as int,
                n as int,
            ));
        }
    }
    if es - fs >= 2 {
        Some(p.substring_char(es, n))
    } else {
        None
    }
}

/// Whether the path passes the engine's case-sensitive `jpg`/`png` gate.
pub fn has_target_ext(p: &str) -> (r: bool)
    ensures
        r == is_target_ext(p@),
{
    match extension_str(p) {
        Some(e) => str_eq(e, "jpg") || str_eq(e, "png"),
        None => false,
    }
}

/// Whether the path passes the enumerator's four-literal extension filter.
pub fn has_supported_ext(p: &str) -> (r: bool)
    ensures
        r == is_supported_ext(p@),
{
    match extension_str(p) {
        Some(e) => str_eq(e, "JPG") || str_eq(e, "jpg") || str_eq(e, "PNG") || str_eq(e, "png"),
        None => false,
    }
}

/// Builds the destination directory path of a resize of `p`.
pub fn dest_dir(p: &str) -> (r: String)
    ensures
        r@ == dest_dir_of(p@),
{
    let fs = scan_back_from(p, 0, '/');
    proof {
        assert(p@.subrange(0, p@.len() as int) =~= p@);
    }
    let prefix = p.substring_char(0, fs);
    String::from_str(prefix).concat("tmp")
}

/// Builds the destination file path of a resize of `p`.
pub fn dest_path(p: &str) -> (r: String)
    ensures
        r@ == dest_path_of(p@),
{
    let n = p.unicode_len();
    let fs = scan_back_from(p, 0, '/');
    let es = scan_back_from(p, fs, '.');
    proof {
        assert(p@.subrange(0, p@.len() as int) =~= p@);
        assert(p@.subrange(fs as int, n as int) == file_name_of(p@));
        if es - fs >= 2 {
            assert(file_name_of(p@).subrange(0, es - fs - 1) =~= p@.subrange(
                fs as int,
                es - 1,
            ));
        }
    }
    let stem: &str = if es - fs >= 2 {
        p.substring_char(fs, es - 1)
    } else {
        p.substring_char(fs, n)
    };
    let d = dest_dir(p);
    d.concat("/").concat(stem).concat(".png")
}

/// Joins a directory path and an entry name.
pub fn join_path(dir: &str, name: &str) -> (r: String)
    ensures
        r@ == join_of(dir@, name@),
{
    let n = dir.unicode_len();
    if n == 0 {
        String::from_str(name)
    } else if dir.get_char(n - 1) == '/' {
        String::from_str(dir).concat(name)
    } else {
        String::from_str(dir).concat("/").concat(name)
    }
}

} // verus!
