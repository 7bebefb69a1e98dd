use crate::StrError;
use vstd::prelude::*;
use vstd::string::*;
use vstd::utf8::*;

verus! {

/// The message returned when a byte buffer does not hold UTF-8 text.
pub const NOT_UTF8: StrError = "cannot convert bytes to UTF-8 string";

/// Converts a count or a rank to the native integer width.
pub fn to_i32(num: usize) -> (r: i32)
    requires
        num <= i32::MAX,
    ensures
        r as int == num as int,
{
    i32::try_from(num).unwrap()
}

/// The number of bytes that `str_to_bytes` copies.
pub open spec fn copied_len(dest_len: int, src_len: int) -> int {
    if dest_len <= src_len {
        dest_len
    } else {
        src_len
    }
}

/// Copies the UTF-8 bytes of `src` to the front of `dest`, truncating when `dest`
/// is shorter (possibly inside a character); the rest of `dest` is left as it was.
pub fn str_to_bytes(dest: &mut [u8], src: &str)
    ensures
        final(dest)@.len() == old(dest)@.len(),
        final(dest)@ == src.spec_bytes().take(copied_len(old(dest)@.len() as int, src.spec_bytes().len() as int))
            + old(dest)@.skip(copied_len(old(dest)@.len() as int, src.spec_bytes().len() as int)),
{
    let bytes = src.as_bytes();
    let n: usize = if dest.len() <= bytes.len() {
        dest.len()
    } else {
        bytes.len()
    };
    let mut i: usize = 0;
    while i < n
        invariant
            n as int == copied_len(old(dest)@.len() as int, bytes@.len() as int),
            bytes@ == src.spec_bytes(),
            i <= n,
            dest@.len() == old(dest)@.len(),
            forall|j: int| 0 <= j < i ==> dest@[j] == bytes@[j],
            forall|j: int| i <= j < dest@.len() ==> dest@[j] == old(dest)@[j],
        decreases n - i,
    {
        dest[i] = bytes[i];
        i = i + 1;
    }
    assert(dest@ =~= src.spec_bytes().take(n as int) + old(dest)@.skip(n as int));
}

/// `s` without its trailing NUL characters.
pub open spec fn trim_nul(s: Seq<char>) -> Seq<char>
    decreases s.len(),
{
    if s.len() > 0 && s.last() == '\0' {
        trim_nul(s.drop_last())
    } else {
        s
    }
}

/// Returns `s` without its trailing NUL characters.
pub fn trim_end_nul(s: &str) -> (r: String)
    ensures
        r@ == trim_nul(s@),
{
    let mut k: usize = s.unicode_len();
    assert(s@.take(k as int) =~= s@);
    while k > 0 && s.get_char(k - 1) == '\0'
        invariant
            k <= s@.len(),
            trim_nul(s@) == trim_nul(s@.take(k as int)),
        decreases k,
    {
        assert(s@.take(k as int).drop_last() =~= s@.take(k - 1));
        k = k - 1;
    }
    s.substring_char(0, k).to_owned()
}

/// What `String::from_utf8_lossy` makes of a byte sequence: the decoded text,
/// each invalid sequence replaced by U+FFFD.
pub uninterp spec fn utf8_lossy(b: Seq<u8>) -> Seq<char>;

/// Relies on `String::from_utf8`: it succeeds exactly on valid UTF-8, and then
/// holds the decoded characters.
#[verifier::external_body]
fn utf8_string(bytes: Vec<u8>) -> (r: Option<String>)
    ensures
        r is Some <==> valid_utf8(bytes@),
        r matches Some(s) ==> s@ == decode_utf8(bytes@),
{
    String::from_utf8(bytes).ok()
}

/// Relies on `String::from_utf8_lossy`: on valid UTF-8 it gives the decoded
/// characters unchanged.
#[verifier::external_body]
fn utf8_lossy_string(bytes: &[u8]) -> (r: String)
    ensures
        r@ == utf8_lossy(bytes@),
        valid_utf8(bytes@) ==> r@ == decode_utf8(bytes@),
{
    String::from_utf8_lossy(bytes).into_owned()
}

/// Converts a vector of bytes to a string, dropping trailing NUL characters.
pub fn bytes_to_string(bytes: Vec<u8>) -> (r: Result<String, StrError>)
    ensures
        r is Ok <==> valid_utf8(bytes@),
        r matches Ok(s) ==> s@ == trim_nul(decode_utf8(bytes@)),
        r matches Err(e) ==> e == NOT_UTF8,
{
    match utf8_string(bytes) {
        Some(s) => Ok(trim_end_nul(s.as_str())),
        None => Err(NOT_UTF8),
    }
}

/// Converts bytes to a string, replacing invalid sequences with U+FFFD and
/// dropping trailing NUL characters.
pub fn bytes_to_string_lossy(bytes: &[u8]) -> (r: String)
    ensures
        r@ == trim_nul(utf8_lossy(bytes@)),
        valid_utf8(bytes@) ==> r@ == trim_nul(decode_utf8(bytes@)),
{
    let s = utf8_lossy_string(bytes);
    trim_end_nul(s.as_str())
}

} // verus!
