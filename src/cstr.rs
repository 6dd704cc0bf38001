use vstd::prelude::*;
use vstd::utf8::*;
use vstd::string::StringSliceAdditionalSpecFns;
use crate::error::{Error, Result};

verus! {

/// No byte of `b` is the C string terminator.
pub open spec fn no_nul(b: Seq<u8>) -> bool {
    forall|i: int| 0 <= i < b.len() ==> b[i] != 0
}

/// The number of bytes before the first terminator (all of them if none).
pub open spec fn c_len(b: Seq<u8>) -> nat
    decreases b.len(),
{
    if b.len() == 0 {
        0
    } else if b[0] == 0 {
        0
    } else {
        1 + c_len(b.drop_first())
    }
}

/// The C string held in a native text buffer: its bytes up to the first
/// terminator.
pub open spec fn c_prefix(b: Seq<u8>) -> Seq<u8> {
    b.take(c_len(b) as int)
}

/// The native representation of the bytes `b`: the bytes and a terminator.
pub open spec fn c_string(b: Seq<u8>) -> Seq<u8> {
    b.push(0)
}

/// The encoding error for bytes that hold a NUL: the offset of the first.
pub open spec fn nul_error(b: Seq<u8>) -> Error {
    Error::NulError(c_len(b) as usize)
}

/// What `String::from_utf8_lossy` makes of bytes that are not valid UTF-8.
pub uninterp spec fn utf8_lossy(b: Seq<u8>) -> Seq<char>;

/// The text that a byte sequence decodes to, replacing invalid sequences.
pub open spec fn text_of_bytes(b: Seq<u8>) -> Seq<char> {
    if valid_utf8(b) {
        decode_utf8(b)
    } else {
        utf8_lossy(b)
    }
}

/// `n` bytes of `b` stand before its first terminator.
pub proof fn lemma_c_len(b: Seq<u8>, n: nat)
    requires
        n <= b.len(),
        forall|j: int| 0 <= j < n ==> b[j] != 0,
        n == b.len() || b[n as int] == 0,
    ensures
        c_len(b) == n,
    decreases n,
{
    if n > 0 {
        assert(b[0] != 0);
        let t = b.drop_first();
        assert forall|j: int| 0 <= j < n - 1 implies t[j] != 0 by {
            assert(t[j] == b[j + 1]);
        }
        if n < b.len() {
            assert(t[n - 1] == b[n as int]);
        }
        lemma_c_len(t, (n - 1) as nat);
    }
}

/// A buffer that holds a terminated string gives back exactly that string.
pub proof fn lemma_c_prefix_of_c_string(b: Seq<u8>)
    requires
        no_nul(b),
    ensures
        c_prefix(c_string(b)) == b,
{
    let s = c_string(b);
    assert forall|j: int| 0 <= j < b.len() implies s[j] != 0 by {
        assert(s[j] == b[j]);
    }
    lemma_c_len(s, b.len());
    assert(c_prefix(s) =~= b);
}

/// Relies on `String::from_utf8_lossy`: valid UTF-8 is decoded as it is,
/// anything else gets replacement characters.
#[verifier::external_body]
fn decode_lossy(b: &[u8]) -> (r: String)
    ensures
        valid_utf8(b@) ==> r@ == decode_utf8(b@),
        !valid_utf8(b@) ==> r@ == utf8_lossy(b@),
{
    String::from_utf8_lossy(b).into_owned()
}

/// Converts text into a NUL-terminated byte string, or reports the offset of
/// the first NUL byte that it holds.
pub fn make_c_str(s: &str) -> (r: Result<Vec<u8>>)
    ensures
        r is Ok <==> no_nul(s.spec_bytes()),
        r matches Ok(v) ==> v@ == c_string(s.spec_bytes()),
        r matches Err(e) ==> e == nul_error(s.spec_bytes()),
{
    let bytes = s.as_bytes();
    let mut out: Vec<u8> = Vec::new();
    let mut i: usize = 0;
    while i < bytes.len()
        invariant
            bytes@ == s.spec_bytes(),
            i <= bytes@.len(),
            out@ == bytes@.take(i as int),
            forall|j: int| 0 <= j < i ==> bytes@[j] != 0,
        decreases bytes@.len() - i,
    {
        if bytes[i] == 0 {
            proof {
                lemma_c_len(bytes@, i as nat);
            }
            return Err(Error::NulError(i));
        }
        out.push(bytes[i]);
        i = i + 1;
        assert(out@ =~= bytes@.take(i as int));
    }
    out.push(0);
    assert(out@ =~= c_string(bytes@));
    Ok(out)
}

/// Reads the C string held in a native text buffer.
pub fn from_c_str(buf: &[u8]) -> (r: String)
    ensures
        r@ == text_of_bytes(c_prefix(buf@)),
{
    let mut text: Vec<u8> = Vec::new();
    let mut i: usize = 0;
    while i < buf.len() && buf[i] != 0
        invariant
            i <= buf@.len(),
            text@ == buf@.take(i as int),
            forall|j: int| 0 <= j < i ==> buf@[j] != 0,
        decreases buf@.len() - i,
    {
        text.push(buf[i]);
        i = i + 1;
        assert(text@ =~= buf@.take(i as int));
    }
    proof {
        lemma_c_len(buf@, i as nat);
    }
    decode_lossy(text.as_slice())
}

/// Marshalling text into a native buffer and reading it back gives the
/// text itself, for every text without a NUL character.
pub proof fn lemma_text_round_trip(s: Seq<char>)
    requires
        no_nul(encode_utf8(s)),
    ensures
        text_of_bytes(c_prefix(c_string(encode_utf8(s)))) == s,
{
    lemma_c_prefix_of_c_string(encode_utf8(s));
    encode_utf8_valid_utf8(s);
    encode_utf8_decode_utf8(s);
}

} // verus!
