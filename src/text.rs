//! Fixed-width text fields: strings stored as zero-padded byte arrays.
use vstd::prelude::*;
use vstd::string::StringSliceAdditionalSpecFns;

verus! {

/// `bytes` cut or zero-padded to exactly `n` bytes.
pub open spec fn padded(bytes: Seq<u8>, n: nat) -> Seq<u8> {
    Seq::new(n, |i: int| if i < bytes.len() { bytes[i] } else { 0u8 })
}

/// Stores `s` in `N` bytes: its first `N` bytes, then zeros.
pub fn pad_bytes<const N: usize>(s: &str) -> (r: [u8; N])
    ensures
        r@ == padded(s.spec_bytes(), N as nat),
{
    let bytes = s.as_bytes();
    let len = if bytes.len() < N { bytes.len() } else { N };
    let mut out = [0u8; N];
    let mut i: usize = 0;
    while i < len
        invariant
            len <= N,
            len <= bytes@.len(),
            i <= len,
            bytes@ == s.spec_bytes(),
            out@ == Seq::new(N as nat, |j: int| if j < i { bytes@[j] } else { 0u8 }),
        decreases len - i,
    {
        out[i] = bytes[i];
        i = i + 1;
        assert(out@ =~= Seq::new(N as nat, |j: int| if j < i { bytes@[j] } else { 0u8 }));
    }
    assert(out@ =~= padded(s.spec_bytes(), N as nat));
    out
}

/// Whether `k` is where the text in `field` ends: at its first zero byte,
/// or at its end if it has none.
pub open spec fn is_text_end(field: Seq<u8>, k: int) -> bool {
    &&& 0 <= k <= field.len()
    &&& forall|j: int| 0 <= j < k ==> field[j] != 0
    &&& k < field.len() ==> field[k] == 0
}

/// The bytes of the text stored in `field`.
pub open spec fn stored_text(field: Seq<u8>) -> Seq<u8> {
    field.subrange(0, choose|k: int| is_text_end(field, k))
}

/// The position where the text stored in `field` ends.
fn text_end(field: &[u8]) -> (k: usize)
    ensures
        is_text_end(field@, k as int),
        field@.subrange(0, k as int) == stored_text(field@),
{
    let mut k: usize = 0;
    while k < field.len() && field[k] != 0
        invariant
            k <= field@.len(),
            forall|j: int| 0 <= j < k ==> field@[j] != 0,
        decreases field@.len() - k,
    {
        k = k + 1;
    }
    proof {
        assert(is_text_end(field@, k as int));
        let c = choose|c: int| is_text_end(field@, c);
        if c < k {
            assert(field@[c] != 0);
        } else if c > k {
            assert(field@[k as int] == 0);
        }
    }
    k
}

/// The string that `String::from_utf8_lossy` makes of `bytes`.
pub uninterp spec fn utf8_lossy(bytes: Seq<u8>) -> Seq<char>;

/// Relies on `String::from_utf8_lossy`: the result depends on the bytes
/// alone, and valid UTF-8 decodes unchanged.
#[verifier::external_body]
fn lossy_string(bytes: &[u8]) -> (r: String)
    ensures
        r@ == utf8_lossy(bytes@),
        vstd::utf8::valid_utf8(bytes@) ==> r@ == vstd::utf8::decode_utf8(bytes@),
{
    String::from_utf8_lossy(bytes).into_owned()
}

/// The text stored in a fixed-width field, invalid UTF-8 replaced.
pub fn field_text(field: &[u8]) -> (r: String)
    ensures
        r@ == utf8_lossy(stored_text(field@)),
{
    let k = text_end(field);
    let (text, _) = field.split_at(k);
    lossy_string(text)
}

} // verus!
