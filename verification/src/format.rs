//! Format classifier: maps a file path's extension to a codec family.
//!
//! The match is case-insensitive. `jpg`/`jpeg` name the JPEG family and
//! `png` the PNG family; the other known raster extensions are accepted for
//! decoding but are re-encoded as JPEG at compression time. A path with no
//! extension at all is rejected.

use crate::CompressError;
use vstd::prelude::*;

verus! {

/// A codec family that the classifier can recognize.
#[derive(Debug, Clone, Copy, PartialEq, Eq, Structural)]
pub enum ImageFormatKind {
    Jpeg,
    Png,
    WebP,
    Bmp,
    Gif,
}

/// Path separators recognized when looking for the file name.
pub open spec fn is_sep(c: char) -> bool {
    c == '/' || c == '\\'
}

/// The upper-case form of an ASCII lower-case letter; other characters are
/// unchanged.
pub open spec fn upper_of(c: char) -> char {
    match c {
        'a' => 'A',
        'b' => 'B',
        'c' => 'C',
        'd' => 'D',
        'e' => 'E',
        'f' => 'F',
        'g' => 'G',
        'h' => 'H',
        'i' => 'I',
        'j' => 'J',
        'k' => 'K',
        'l' => 'L',
        'm' => 'M',
        'n' => 'N',
        'o' => 'O',
        'p' => 'P',
        'q' => 'Q',
        'r' => 'R',
        's' => 'S',
        't' => 'T',
        'u' => 'U',
        'v' => 'V',
        'w' => 'W',
        'x' => 'X',
        'y' => 'Y',
        'z' => 'Z',
        _ => c,
    }
}

/// Case-insensitive equality of a path character against a lower-case letter.
pub open spec fn ci_eq(c: char, lo: char) -> bool {
    c == lo || c == upper_of(lo)
}

/// Case-insensitive equality of a whole extension against a lower-case
/// extension literal.
pub open spec fn ext_matches(s: Seq<char>, lit: Seq<char>) -> bool {
    s.len() == lit.len() && (forall|i: int| 0 <= i < s.len() ==> ci_eq(s[i], lit[i]))
}

/// The position of the dot introducing the extension: the last `.` in the
/// path, provided no separator follows it.
pub open spec fn ext_dot(s: Seq<char>) -> Option<int>
    decreases s.len(),
{
    if s.len() == 0 {
        None
    } else if s.last() == '.' {
        Some(s.len() - 1)
    } else if is_sep(s.last()) {
        None
    } else {
        ext_dot(s.drop_last())
    }
}

/// The extension of a path: the characters after the final dot of the file
/// name. A file name that starts with its only dot has no extension.
pub open spec fn extension_of(s: Seq<char>) -> Option<Seq<char>> {
    match ext_dot(s) {
        Option::None => Option::None,
        Option::Some(p) => if p == 0 || is_sep(s[p - 1]) {
            Option::None
        } else {
            Option::Some(s.subrange(p + 1, s.len() as int))
        },
    }
}

/// The codec family named by an extension, if any.
pub open spec fn classify_extension(ext: Seq<char>) -> Option<ImageFormatKind> {
    if ext_matches(ext, seq!['j', 'p', 'g']) || ext_matches(ext, seq!['j', 'p', 'e', 'g']) {
        Option::Some(ImageFormatKind::Jpeg)
    } else if ext_matches(ext, seq!['p', 'n', 'g']) {
        Option::Some(ImageFormatKind::Png)
    } else if ext_matches(ext, seq!['w', 'e', 'b', 'p']) {
        Option::Some(ImageFormatKind::WebP)
    } else if ext_matches(ext, seq!['b', 'm', 'p']) {
        Option::Some(ImageFormatKind::Bmp)
    } else if ext_matches(ext, seq!['g', 'i', 'f']) {
        Option::Some(ImageFormatKind::Gif)
    } else {
        Option::None
    }
}

/// The codec family of a whole path, if its extension names one.
pub open spec fn spec_image_format(path: Seq<char>) -> Option<ImageFormatKind> {
    match extension_of(path) {
        Option::None => Option::None,
        Option::Some(e) => classify_extension(e),
    }
}

/// The upper-case form of an ASCII lower-case letter, computed at run time.
fn upper_char(c: char) -> (r: char)
    ensures
        r == upper_of(c),
{
    match c {
        'a' => 'A',
        'b' => 'B',
        'c' => 'C',
        'd' => 'D',
        'e' => 'E',
        'f' => 'F',
        'g' => 'G',
        'h' => 'H',
        'i' => 'I',
        'j' => 'J',
        'k' => 'K',
        'l' => 'L',
        'm' => 'M',
        'n' => 'N',
        'o' => 'O',
        'p' => 'P',
        'q' => 'Q',
        'r' => 'R',
        's' => 'S',
        't' => 'T',
        'u' => 'U',
        'v' => 'V',
        'w' => 'W',
        'x' => 'X',
        'y' => 'Y',
        'z' => 'Z',
        _ => c,
    }
}

/// Whether `c` equals the lower-case letter `lo`, ignoring case.
fn char_matches(c: char, lo: char) -> (r: bool)
    ensures
        r == ci_eq(c, lo),
{
    c == lo || c == upper_char(lo)
}

/// Classify the extension that starts at `start` and runs to the end of
/// `path`.
fn classify_ext_at(path: &str, start: usize, n: usize) -> (r: Option<ImageFormatKind>)
    requires
        start <= n,
        n == path@.len(),
    ensures
        r == classify_extension(path@.subrange(start as int, n as int)),
{
    let ghost ext = path@.subrange(start as int, n as int);
    let m = n - start;
    if m == 3 {
        let c0 = path.get_char(start);
        let c1 = path.get_char(start + 1);
        let c2 = path.get_char(start + 2);
        assert(ext.len() == 3 && c0 == ext[0] && c1 == ext[1] && c2 == ext[2]);
        if char_matches(c0, 'j') && char_matches(c1, 'p') && char_matches(c2, 'g') {
            assert(ext_matches(ext, seq!['j', 'p', 'g']));
            Option::Some(ImageFormatKind::Jpeg)
        } else if char_matches(c0, 'p') && char_matches(c1, 'n') && char_matches(c2, 'g') {
            assert(ext_matches(ext, seq!['p', 'n', 'g']));
            Option::Some(ImageFormatKind::Png)
        } else if char_matches(c0, 'b') && char_matches(c1, 'm') && char_matches(c2, 'p') {
            assert(ext_matches(ext, seq!['b', 'm', 'p']));
            Option::Some(ImageFormatKind::Bmp)
        } else if char_matches(c0, 'g') && char_matches(c1, 'i') && char_matches(c2, 'f') {
            assert(ext_matches(ext, seq!['g', 'i', 'f']));
            Option::Some(ImageFormatKind::Gif)
        } else {
            Option::None
        }
    } else if m == 4 {
        let c0 = path.get_char(start);
        let c1 = path.get_char(start + 1);
        let c2 = path.get_char(start + 2);
        let c3 = path.get_char(start + 3);
        assert(ext.len() == 4 && c0 == ext[0] && c1 == ext[1] && c2 == ext[2] && c3 == ext[3]);
        if char_matches(c0, 'j') && char_matches(c1, 'p') && char_matches(c2, 'e')
            && char_matches(c3, 'g') {
            assert(ext_matches(ext, seq!['j', 'p', 'e', 'g']));
            Option::Some(ImageFormatKind::Jpeg)
        } else if char_matches(c0, 'w') && char_matches(c1, 'e') && char_matches(c2, 'b')
            && char_matches(c3, 'p') {
            assert(ext_matches(ext, seq!['w', 'e', 'b', 'p']));
            Option::Some(ImageFormatKind::WebP)
        } else {
            Option::None
        }
    } else {
        Option::None
    }
}

/// Map a file path to the codec family named by its extension.
///
/// The match is case-insensitive; a path whose extension is absent or
/// unrecognized is rejected with `UnsupportedFormat`.
pub fn get_image_format(path: &str) -> (r: Result<ImageFormatKind, CompressError>)
    ensures
        r matches Ok(k) ==> spec_image_format(path@) == Option::Some(k),
        r matches Err(e) ==> e == CompressError::UnsupportedFormat && spec_image_format(
            path@,
        ) is None,
{
    let n = path.unicode_len();
    let mut i: usize = n;
    let mut dot_at: usize = 0;
    let mut found: bool = false;
    proof {
        assert(path@.subrange(0, n as int) =~= path@);
    }
    while i > 0
        invariant_except_break
            !found,
            i <= n,
            n == path@.len(),
            ext_dot(path@) == ext_dot(path@.subrange(0, i as int)),
        ensures
            n == path@.len(),
            found ==> dot_at < n && ext_dot(path@) == Option::Some(dot_at as int),
            !found ==> ext_dot(path@) is None,
        decreases i,
    {
        let c = path.get_char(i - 1);
        proof {
            assert(path@.subrange(0, i as int).len() == i);
            assert(path@.subrange(0, i as int).last() == c);
        }
        if c == '.' {
            found = true;
            dot_at = i - 1;
            break;
        }
        if c == '/' || c == '\\' {
            break;
        }
        proof {
            assert(path@.subrange(0, i as int).drop_last() =~= path@.subrange(0, i as int - 1));
        }
        i -= 1;
    }
    if !found {
        return Err(CompressError::UnsupportedFormat);
    }
    if dot_at == 0 {
        return Err(CompressError::UnsupportedFormat);
    }
    let prev = path.get_char(dot_at - 1);
    if prev == '/' || prev == '\\' {
        return Err(CompressError::UnsupportedFormat);
    }
    assert(extension_of(path@) == Option::Some(
        path@.subrange(dot_at as int + 1, path@.len() as int),
    ));
    match classify_ext_at(path, dot_at + 1, n) {
        Option::Some(k) => Ok(k),
        Option::None => Err(CompressError::UnsupportedFormat),
    }
}

} // verus!
