//! Normalising an executable image path into an application identity.
//!
//! On the platform whose stable application id is the executable's filename,
//! the foreground-process query returns a full image path. The identity used
//! for rule matching is the filename after the last path separator, lowered
//! to ASCII lower case; the display name is the same filename with its
//! `.exe`/`.EXE` suffix stripped.

use vstd::prelude::*;

verus! {

/// The filename of an image path: everything after the last backslash
/// separator, or the whole path when none occurs.
pub open spec fn filename_of(s: Seq<char>) -> Seq<char>
    decreases s.len(),
{
    if s.len() == 0 {
        s
    } else if s.last() == '\\' {
        Seq::empty()
    } else {
        filename_of(s.drop_last()).push(s.last())
    }
}

/// The code point of `c` lowered to ASCII lower case.
pub open spec fn lower_char(c: char) -> char {
    if 65 <= c as int && c as int <= 90 {
        ((c as int) + 32) as char
    } else {
        c
    }
}

/// `s` with every ASCII upper-case letter lowered.
pub open spec fn lower_seq(s: Seq<char>) -> Seq<char> {
    s.map(|_i: int, c: char| lower_char(c))
}

/// Whether a filename carries one of the two spellings of the executable
/// suffix that image names come with.
pub open spec fn ends_with_exe(f: Seq<char>) -> bool {
    &&& f.len() >= 4
    &&& f[f.len() - 4] == '.'
    &&& ((f[f.len() - 3] == 'e' && f[f.len() - 2] == 'x' && f[f.len() - 1] == 'e') || (f[f.len()
        - 3] == 'E' && f[f.len() - 2] == 'X' && f[f.len() - 1] == 'E'))
}

/// The display stem of a filename: the `.exe`/`.EXE` suffix stripped.
pub open spec fn strip_exe(f: Seq<char>) -> Seq<char> {
    if ends_with_exe(f) {
        f.subrange(0, f.len() - 4)
    } else {
        f
    }
}

proof fn lemma_filename_whole(s: Seq<char>)
    requires
        forall|j: int| 0 <= j < s.len() ==> s[j] != '\\',
    ensures
        filename_of(s) == s,
    decreases s.len(),
{
    if s.len() > 0 {
        lemma_filename_whole(s.drop_last());
        assert(filename_of(s) =~= s);
    } else {
        assert(filename_of(s) =~= s);
    }
}

proof fn lemma_filename_suffix(s: Seq<char>, k: int)
    requires
        0 <= k < s.len(),
        s[k] == '\\',
        forall|j: int| k < j < s.len() ==> s[j] != '\\',
    ensures
        filename_of(s) == s.subrange(k + 1, s.len() as int),
    decreases s.len() - k,
{
    if k == s.len() - 1 {
        assert(filename_of(s) =~= s.subrange(k + 1, s.len() as int));
    } else {
        lemma_filename_suffix(s.drop_last(), k);
        assert(filename_of(s) =~= s.subrange(k + 1, s.len() as int));
    }
}

/// Relies on str::to_ascii_lowercase: the returned copy has each ASCII
/// upper-case letter mapped to its lower-case equivalent and every other
/// character unchanged.
#[verifier::external_body]
fn ascii_lowercase(s: &str) -> (r: String)
    ensures
        r@ == lower_seq(s@),
{
    s.to_ascii_lowercase()
}

/// Normalise a full executable image path into `(app id, display name)`:
/// the id is the lower-cased filename, the name is the filename without its
/// executable suffix, case preserved.
pub fn app_identity_from_image_path(path: &str) -> (r: (String, String))
    ensures
        r.0@ == lower_seq(filename_of(path@)),
        r.1@ == strip_exe(filename_of(path@)),
{
    let n = path.unicode_len();
    let mut sep: Option<usize> = Option::None;
    let mut i: usize = 0;
    while i < n
        invariant
            n == path@.len(),
            i <= n,
            match sep {
                Option::Some(k) => k < i && path@[k as int] == '\\' && forall|j: int|
                    k < j < i ==> path@[j] != '\\',
                Option::None => forall|j: int| 0 <= j < i ==> path@[j] != '\\',
            },
        decreases n - i,
    {
        if path.get_char(i) == '\\' {
            sep = Option::Some(i);
        }
        i += 1;
    }
    let filename: &str = match sep {
        Option::None => {
            proof {
                lemma_filename_whole(path@);
            }
            path
        },
        Option::Some(k) => {
            proof {
                lemma_filename_suffix(path@, k as int);
            }
            path.substring_char(k + 1, n)
        },
    };
    assert(filename@ == filename_of(path@));

    let flen = filename.unicode_len();
    let has_exe = flen >= 4 && {
        let dot = filename.get_char(flen - 4);
        let c1 = filename.get_char(flen - 3);
        let c2 = filename.get_char(flen - 2);
        let c3 = filename.get_char(flen - 1);
        dot == '.' && ((c1 == 'e' && c2 == 'x' && c3 == 'e') || (c1 == 'E' && c2 == 'X' && c3
            == 'E'))
    };
    let name: String = if has_exe {
        filename.substring_char(0, flen - 4).to_owned()
    } else {
        filename.to_owned()
    };
    let id = ascii_lowercase(filename);
    (id, name)
}

} // verus!
