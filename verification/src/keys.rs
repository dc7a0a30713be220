//! Storage keys: a freshly generated 7-character alphanumeric stem joined by
//! a dot to the canonical extension of the validated format.
//!
//! A key in this shape addresses one stored file. The shape is also the
//! retrieval side's whole defence against path traversal: a well-formed key
//! holds nothing but letters, digits and the single dot before its
//! extension, so it can never name anything outside the storage root.

use vstd::prelude::*;
use crate::filetype::FileType;
use rand::Rng;
use vstd::string::StrSliceExecFns;
use vstd::string::StringExecFns;

verus! {

/// The length of a generated name stem.
pub const STEM_LEN: usize = 7;

/// True for the ASCII letters and digits, the alphabet of generated stems.
pub open spec fn is_alnum_char(c: char) -> bool {
    ||| 'a' <= c && c <= 'z'
    ||| 'A' <= c && c <= 'Z'
    ||| '0' <= c && c <= '9'
}

/// A generated name stem: exactly `STEM_LEN` ASCII letters or digits.
pub open spec fn is_stem(s: Seq<char>) -> bool {
    &&& s.len() == STEM_LEN
    &&& forall|i: int| 0 <= i < s.len() ==> is_alnum_char(#[trigger] s[i])
}

/// Relies on rand's `Alphanumeric` distribution: every sampled byte is an
/// ASCII letter or digit, drawn uniformly, and `char::from` maps an ASCII
/// byte to the character of the same value. Nothing about which characters
/// come back can be promised beyond that.
#[verifier::external_body]
pub(crate) fn random_stem() -> (r: String)
    ensures
        is_stem(r@),
{
    rand::thread_rng()
        .sample_iter(&rand::distributions::Alphanumeric)
        .take(STEM_LEN)
        .map(char::from)
        .collect()
}

/// A well-formed storage key for one format: a stem, a dot, the format's
/// canonical extension.
pub open spec fn is_storage_key_for(k: Seq<char>, ft: FileType) -> bool {
    &&& k.len() == STEM_LEN + 1 + ft.spec_ext().len()
    &&& is_stem(k.take(STEM_LEN as int))
    &&& k[STEM_LEN as int] == '.'
    &&& k.skip(STEM_LEN as int + 1) == ft.spec_ext()
}

/// A well-formed storage key for some supported format.
pub open spec fn is_storage_key(k: Seq<char>) -> bool {
    exists|ft: FileType| is_storage_key_for(k, ft)
}

/// Join a stem and a format's extension into a storage key.
pub fn make_storage_key(stem: &str, ft: &FileType) -> (r: String)
    ensures
        r@ == stem@ + "."@ + ft.spec_ext(),
        is_stem(stem@) ==> is_storage_key_for(r@, *ft),
{
    let mut key = stem.to_owned();
    key.append(".");
    key.append(ft.ext());
    proof {
        reveal_strlit(".");
        if is_stem(stem@) {
            assert(key@.take(STEM_LEN as int) =~= stem@);
            assert(key@.skip(STEM_LEN as int + 1) =~= ft.spec_ext());
        }
    }
    key
}

/// Produce a fresh storage key for a validated format. No uniqueness check
/// against already existing keys is made: the generator relies on the size
/// of its name space alone, by design.
pub fn generate_key(ft: &FileType) -> (r: String)
    ensures
        is_storage_key_for(r@, *ft),
{
    let stem = random_stem();
    make_storage_key(stem.as_str(), ft)
}

/// The format a well-formed storage key was generated for, or `None` where
/// the key is not in the generated shape. The two shapes differ in length,
/// so at most one fits.
pub open spec fn key_format(k: Seq<char>) -> Option<FileType> {
    if is_storage_key_for(k, FileType::Png) {
        Some(FileType::Png)
    } else if is_storage_key_for(k, FileType::Jpg) {
        Some(FileType::Jpg)
    } else {
        None
    }
}

/// Decide whether a requested key is in the shape the upload side
/// generates, and for which format. Anything else — wrong length, a
/// character outside the stem's alphabet, a foreign extension — is rejected.
pub fn check_key(key: &str) -> (r: Option<FileType>)
    ensures
        r == key_format(key@),
{
    proof {
        reveal_strlit("png");
        reveal_strlit("jpeg");
    }
    let n = key.unicode_len();
    if n != 11 && n != 12 {
        return None;
    }
    let mut i: usize = 0;
    while i < STEM_LEN
        invariant
            0 <= i <= STEM_LEN,
            STEM_LEN < key@.len(),
            forall|j: int| 0 <= j < i ==> is_alnum_char(#[trigger] key@[j]),
        decreases STEM_LEN - i,
    {
        let c = key.get_char(i);
        let u = c as u32;
        if !(('a' as u32) <= u && u <= ('z' as u32) || ('A' as u32) <= u && u <= ('Z' as u32)
            || ('0' as u32) <= u && u <= ('9' as u32)) {
            proof {
                assert(key@.take(STEM_LEN as int)[i as int] == key@[i as int]);
                assert(!is_stem(key@.take(STEM_LEN as int)));
            }
            return None;
        }
        i += 1;
    }
    if key.get_char(STEM_LEN) as u32 != ('.' as u32) {
        return None;
    }
    if n == 11 {
        if key.get_char(8) as u32 == ('p' as u32) && key.get_char(9) as u32 == ('n' as u32)
            && key.get_char(10) as u32 == ('g' as u32) {
            assert(key@.skip(STEM_LEN as int + 1) =~= FileType::Png.spec_ext());
            Some(FileType::Png)
        } else {
            proof {
                assert(key@.skip(STEM_LEN as int + 1)[0] == key@[8]);
                assert(key@.skip(STEM_LEN as int + 1)[1] == key@[9]);
                assert(key@.skip(STEM_LEN as int + 1)[2] == key@[10]);
                assert(key@.skip(STEM_LEN as int + 1) != FileType::Png.spec_ext());
            }
            None
        }
    } else {
        if key.get_char(8) as u32 == ('j' as u32) && key.get_char(9) as u32 == ('p' as u32)
            && key.get_char(10) as u32 == ('e' as u32) && key.get_char(11) as u32 == ('g' as u32) {
            assert(key@.skip(STEM_LEN as int + 1) =~= FileType::Jpg.spec_ext());
            Some(FileType::Jpg)
        } else {
            proof {
                assert(key@.skip(STEM_LEN as int + 1)[0] == key@[8]);
                assert(key@.skip(STEM_LEN as int + 1)[1] == key@[9]);
                assert(key@.skip(STEM_LEN as int + 1)[2] == key@[10]);
                assert(key@.skip(STEM_LEN as int + 1)[3] == key@[11]);
                assert(key@.skip(STEM_LEN as int + 1) != FileType::Jpg.spec_ext());
            }
            None
        }
    }
}

/// A well-formed storage key can name nothing outside the storage root: it
/// holds no path separator anywhere and no two consecutive dots, so no
/// parent-directory reference.
pub proof fn lemma_storage_key_no_traversal(k: Seq<char>)
    requires
        is_storage_key(k),
    ensures
        forall|i: int| 0 <= i < k.len() ==> k[i] != '/' && k[i] != '\\',
        forall|i: int| 0 <= i && i + 1 < k.len() ==> !(#[trigger] k[i] == '.' && k[i + 1] == '.'),
{
    reveal_strlit("png");
    reveal_strlit("jpeg");
    let ft = choose|ft: FileType| is_storage_key_for(k, ft);
    assert forall|i: int| 0 <= i < k.len() implies k[i] != '/' && k[i] != '\\' by {
        if i < STEM_LEN {
            assert(is_alnum_char(k.take(STEM_LEN as int)[i]));
        } else if i > STEM_LEN {
            assert(k[i] == ft.spec_ext()[i - STEM_LEN - 1]);
        }
    }
    assert forall|i: int| 0 <= i && i + 1 < k.len() implies !(#[trigger] k[i] == '.' && k[i + 1] == '.') by {
        if i < STEM_LEN {
            assert(is_alnum_char(k.take(STEM_LEN as int)[i]));
        } else if i == STEM_LEN {
            assert(k[i + 1] == ft.spec_ext()[0]);
        } else {
            assert(k[i] == ft.spec_ext()[i - STEM_LEN - 1]);
        }
    }
}

} // verus!
