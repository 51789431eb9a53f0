//! Strings: comparison, lower case and UTF-16.

use vstd::prelude::*;
use vstd::string::StringSliceAdditionalSpecFns;
use vstd::utf8::{encode_utf8, encode_utf8_decode_utf8};

verus! {

/// The lowercase form of a string, as the standard library defines it over
/// the whole of Unicode.
pub uninterp spec fn lowercase(text: Seq<char>) -> Seq<char>;

/// `str::to_lowercase` gives the lowercase form of a string: a function of
/// its characters alone, of which nothing else is claimed.
pub assume_specification[ str::to_lowercase ](text: &str) -> (lower: String)
    ensures
        lower@ == lowercase(text@),
;

/// The text that a run of UTF-16 code units encodes, if it is valid UTF-16.
pub uninterp spec fn utf16_text(units: Seq<u16>) -> Option<Seq<char>>;

/// The failure of `String::from_utf16`, which is passed on unread.
#[verifier::external_type_specification]
#[verifier::external_body]
pub struct ExFromUtf16Error(std::string::FromUtf16Error);

/// `String::from_utf16` decodes a run of UTF-16 code units and fails where
/// the run is not valid UTF-16: whether it fails, and the text it gives, are
/// functions of the code units alone.
pub assume_specification[ String::from_utf16 ](units: &[u16]) -> (text: Result<
    String,
    std::string::FromUtf16Error,
>)
    ensures
        (match utf16_text(units@) {
            Some(chars) => text is Ok && text->Ok_0@ == chars,
            None => text is Err,
        }),
;

/// The UTF-16 code units that `bytes` hold, two bytes for each with the
/// less significant first. A last byte without a partner is left out.
pub open spec fn utf16_units(bytes: Seq<u8>) -> Seq<u16> {
    Seq::new(bytes.len() / 2, |i: int| (bytes[2 * i] + 256 * bytes[2 * i + 1]) as u16)
}

/// The UTF-16 code units that `bytes` hold.
pub fn code_units(bytes: &[u8]) -> (units: Vec<u16>)
    ensures
        units@ == utf16_units(bytes@),
{
    let length = bytes.len();
    let mut units: Vec<u16> = Vec::new();
    let mut i: usize = 0;
    while i < length && i + 1 < length
        invariant
            i <= length,
            length == bytes@.len(),
            i % 2 == 0,
            units@ == utf16_units(bytes@).take(i as int / 2),
        decreases length - i,
    {
        let low = bytes[i];
        let high = bytes[i + 1];
        units.push(low as u16 + 256 * (high as u16));
        proof {
            let k = i as int / 2;
            assert(utf16_units(bytes@).take(k + 1) =~= utf16_units(bytes@).take(k).push(
                (low + 256 * high) as u16,
            ));
        }
        i += 2;
    }
    assert(units@ =~= utf16_units(bytes@));
    units
}

/// Two strings with the same UTF-8 bytes hold the same characters.
pub proof fn lemma_same_bytes_same_chars(a: Seq<char>, b: Seq<char>)
    requires
        encode_utf8(a) == encode_utf8(b),
    ensures
        a == b,
{
    encode_utf8_decode_utf8(a);
    encode_utf8_decode_utf8(b);
}

/// Whether `a` and `b` hold the same characters.
pub fn str_eq(a: &str, b: &str) -> (same: bool)
    ensures
        same == (a@ == b@),
{
    let x = a.as_bytes();
    let y = b.as_bytes();
    if x.len() != y.len() {
        return false;
    }
    let mut i: usize = 0;
    while i < x.len()
        invariant
            i <= x@.len(),
            x@.len() == y@.len(),
            x@ == a.spec_bytes(),
            y@ == b.spec_bytes(),
            forall|k: int| 0 <= k < i ==> x@[k] == y@[k],
        decreases x@.len() - i,
    {
        if x[i] != y[i] {
            return false;
        }
        i += 1;
    }
    proof {
        assert(x@ =~= y@);
        lemma_same_bytes_same_chars(a@, b@);
    }
    true
}

} // verus!
