//! Info-log buffers and the text read out of them.

use vstd::prelude::*;

verus! {

/// The byte that fills an info-log buffer before the driver writes into it.
pub const BLANK: u8 = 0x20;

/// What a fresh info-log buffer of `len` bytes holds: `len` blanks.
pub open spec fn blank_buffer(len: nat) -> Seq<u8> {
    Seq::new(len, |i: int| BLANK)
}

/// Text that can be handed to the driver as a C string: no byte of it is zero.
pub open spec fn is_c_text(bytes: Seq<u8>) -> bool {
    forall|i: int| 0 <= i < bytes.len() ==> bytes[i] != 0
}

/// Whether `bytes` can be handed to the driver as a C string.
pub fn check_c_text(bytes: &[u8]) -> (ok: bool)
    ensures
        ok == is_c_text(bytes@),
{
    let mut seen: usize = 0;
    while seen < bytes.len()
        invariant
            seen <= bytes.len(),
            forall|i: int| 0 <= i < seen ==> bytes@[i] != 0,
        decreases bytes.len() - seen,
    {
        if bytes[seen] == 0 {
            return false;
        }
        seen += 1;
    }
    true
}

/// Allocates the buffer that receives an info log of `len` bytes. No buffer
/// is larger than `isize::MAX` bytes.
pub fn create_c_string_buffer(len: usize) -> (buffer: Vec<u8>)
    requires
        len <= isize::MAX,
    ensures
        buffer@ == blank_buffer(len as nat),
{
    let mut buffer: Vec<u8> = Vec::with_capacity(len);
    let mut filled: usize = 0;
    while filled < len
        invariant
            filled <= len,
            buffer@ == blank_buffer(filled as nat),
        decreases len - filled,
    {
        buffer.push(BLANK);
        filled += 1;
    }
    buffer
}

/// The text that lossy UTF-8 decoding makes of `bytes`.
pub uninterp spec fn lossy_text(bytes: Seq<u8>) -> Seq<char>;

/// Decodes an info log with `String::from_utf8_lossy`.
///
/// Trusted: the result is a function of the bytes alone; bytes that are valid
/// UTF-8 decode to the text they encode; an ill-formed sequence is replaced by
/// U+FFFD rather than dropped, so only an empty log gives an empty text.
#[verifier::external_body]
pub(crate) fn decode_lossy(bytes: &Vec<u8>) -> (text: String)
    ensures
        text@ == lossy_text(bytes@),
        vstd::utf8::valid_utf8(bytes@) ==> text@ == vstd::utf8::decode_utf8(bytes@),
        text@.len() == 0 <==> bytes@.len() == 0,
{
    String::from_utf8_lossy(bytes).into_owned()
}

} // verus!
