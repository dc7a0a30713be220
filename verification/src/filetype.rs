//! Classification of a raw byte payload as a supported image format.
//!
//! Only the magic bytes are inspected, never the payload's internal
//! structure: a buffer counts as JPEG when it both starts with the JPEG
//! start-of-image marker and ends with the end-of-image marker, and as PNG
//! when it starts with the 8-byte PNG signature. Any buffer shorter than the
//! longest signature checked (the PNG signature) is unrecognized outright.

use vstd::prelude::*;

verus! {

/// A supported image format, recognized from a payload's magic bytes.
#[derive(Clone, Copy, Debug, PartialEq, Eq, Structural)]
pub enum FileType {
    Jpg,
    Png,
}

/// The length of the longest signature checked: the 8-byte PNG signature.
pub const MIN_SNIFF_LEN: usize = 8;

/// True when the buffer starts with the JPEG start-of-image marker
/// `FF D8 FF` and ends with the end-of-image marker `FF D9`.
pub open spec fn has_jpeg_markers(b: Seq<u8>) -> bool {
    &&& b.len() >= 5
    &&& b[0] == 0xffu8
    &&& b[1] == 0xd8u8
    &&& b[2] == 0xffu8
    &&& b[b.len() - 2] == 0xffu8
    &&& b[b.len() - 1] == 0xd9u8
}

/// True when the buffer starts with the 8-byte PNG signature.
pub open spec fn has_png_signature(b: Seq<u8>) -> bool {
    &&& b.len() >= 8
    &&& b[0] == 0x89u8
    &&& b[1] == 0x50u8
    &&& b[2] == 0x4eu8
    &&& b[3] == 0x47u8
    &&& b[4] == 0x0du8
    &&& b[5] == 0x0au8
    &&& b[6] == 0x1au8
    &&& b[7] == 0x0au8
}

/// What the validator returns on a given buffer: buffers shorter than the
/// longest checked signature are unrecognized without any window being read;
/// otherwise the JPEG markers are checked first, then the PNG signature.
pub open spec fn classify(b: Seq<u8>) -> Option<FileType> {
    if b.len() < MIN_SNIFF_LEN {
        None
    } else if has_jpeg_markers(b) {
        Some(FileType::Jpg)
    } else if has_png_signature(b) {
        Some(FileType::Png)
    } else {
        None
    }
}

impl FileType {
    /// The canonical file extension of the format.
    pub open spec fn spec_ext(self) -> Seq<char> {
        match self {
            FileType::Jpg => "jpeg"@,
            FileType::Png => "png"@,
        }
    }

    /// The canonical file extension of the format, as used in storage keys
    /// and content-type headers.
    pub fn ext(&self) -> (r: &'static str)
        ensures
            r@ == self.spec_ext(),
    {
        match self {
            FileType::Jpg => "jpeg",
            FileType::Png => "png",
        }
    }
}

/// Recognize the format of a payload from its magic bytes alone, or reject
/// it. Malformed bodies with correct magic bytes still pass: nothing beyond
/// the signatures is parsed.
pub fn validate_file(bytes: &Vec<u8>) -> (r: Option<FileType>)
    ensures
        r == classify(bytes@),
{
    let n = bytes.len();
    if n < MIN_SNIFF_LEN {
        return None;
    }
    if bytes[0] == 0xff && bytes[1] == 0xd8 && bytes[2] == 0xff && bytes[n - 2] == 0xff
        && bytes[n - 1] == 0xd9 {
        return Some(FileType::Jpg);
    }
    if bytes[0] == 0x89 && bytes[1] == 0x50 && bytes[2] == 0x4e && bytes[3] == 0x47
        && bytes[4] == 0x0d && bytes[5] == 0x0a && bytes[6] == 0x1a && bytes[7] == 0x0a {
        return Some(FileType::Png);
    }
    None
}

/// A buffer long enough to be sniffed is classified JPEG exactly when both
/// JPEG markers are present: removing either marker flips the result away
/// from JPEG.
pub proof fn lemma_jpeg_iff_both_markers(b: Seq<u8>)
    requires
        b.len() >= MIN_SNIFF_LEN,
    ensures
        classify(b) == Some(FileType::Jpg) <==> has_jpeg_markers(b),
{
}

/// A buffer that starts with the PNG signature is classified PNG whatever
/// its trailing bytes hold: the signature's first byte rules the JPEG
/// markers out.
pub proof fn lemma_png_signature_suffices(b: Seq<u8>)
    requires
        has_png_signature(b),
    ensures
        classify(b) == Some(FileType::Png),
{
    assert(!has_jpeg_markers(b));
}

/// A buffer shorter than the longest checked signature is unrecognized,
/// with no byte of it read.
pub proof fn lemma_short_buffer_unrecognized(b: Seq<u8>)
    requires
        b.len() < MIN_SNIFF_LEN,
    ensures
        classify(b) is None,
{
}

/// A buffer with neither the JPEG markers nor the PNG signature is
/// unrecognized: no other format is supported.
pub proof fn lemma_no_signature_unrecognized(b: Seq<u8>)
    requires
        !has_jpeg_markers(b),
        !has_png_signature(b),
    ensures
        classify(b) is None,
{
}

} // verus!
