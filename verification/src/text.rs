//! Building ASCII text: hexadecimal numbers and fixed words, turned into strings at the end.
use vstd::prelude::*;

verus! {

/// Whether every byte of `s` is an ASCII character.
pub open spec fn spec_is_ascii(s: Seq<u8>) -> bool {
    forall|i: int| 0 <= i < s.len() ==> #[trigger] s[i] < 128
}

/// The characters of an ASCII text.
pub open spec fn spec_chars(s: Seq<u8>) -> Seq<char> {
    s.map_values(|b: u8| b as char)
}

/// The ASCII code of the upper-case hexadecimal digit `d`.
pub open spec fn spec_hex_digit(d: nat) -> u8 {
    if d < 10 {
        (48 + d) as u8
    } else {
        (55 + d) as u8
    }
}

/// `n` in upper-case hexadecimal without leading zeros.
pub open spec fn spec_hex(n: nat) -> Seq<u8>
    decreases n,
{
    if n < 16 {
        seq![spec_hex_digit(n)]
    } else {
        spec_hex(n / 16).push(spec_hex_digit(n % 16))
    }
}

/// `n` in upper-case hexadecimal, with zeros in front to make at least `width` digits.
pub open spec fn spec_hex_padded(n: nat, width: nat) -> Seq<u8> {
    let digits = spec_hex(n);
    if digits.len() < width {
        Seq::new((width - digits.len()) as nat, |_i: int| 48u8) + digits
    } else {
        digits
    }
}

pub proof fn lemma_ascii_concat(a: Seq<u8>, b: Seq<u8>)
    requires
        spec_is_ascii(a),
        spec_is_ascii(b),
    ensures
        spec_is_ascii(a + b),
{
    assert forall|i: int| 0 <= i < (a + b).len() implies #[trigger] (a + b)[i] < 128 by {
        if i < a.len() {
            assert((a + b)[i] == a[i]);
        } else {
            assert((a + b)[i] == b[i - a.len()]);
        }
    }
}

pub proof fn lemma_hex_ascii(n: nat)
    ensures
        spec_is_ascii(spec_hex(n)),
        spec_hex(n).len() >= 1,
    decreases n,
{
    if n >= 16 {
        lemma_hex_ascii(n / 16);
        assert(spec_is_ascii(seq![spec_hex_digit(n % 16)]));
        lemma_ascii_concat(spec_hex(n / 16), seq![spec_hex_digit(n % 16)]);
        assert(spec_hex(n / 16).push(spec_hex_digit(n % 16)) =~= spec_hex(n / 16) + seq![spec_hex_digit(n % 16)]);
    }
}

pub proof fn lemma_hex_padded_ascii(n: nat, width: nat)
    ensures
        spec_is_ascii(spec_hex_padded(n, width)),
{
    lemma_hex_ascii(n);
    let digits = spec_hex(n);
    if digits.len() < width {
        let zeros = Seq::new((width - digits.len()) as nat, |_i: int| 48u8);
        assert(spec_is_ascii(zeros));
        lemma_ascii_concat(zeros, digits);
    }
}

/// The bytes of `bytes` put after those of `out`.
pub fn push_all(out: &mut Vec<u8>, bytes: &[u8])
    ensures
        final(out)@ == old(out)@ + bytes@,
{
    let mut i: usize = 0;
    while i < bytes.len()
        invariant
            i <= bytes@.len(),
            out@ == old(out)@ + bytes@.take(i as int),
        decreases bytes@.len() - i,
    {
        out.push(bytes[i]);
        i += 1;
        assert(out@ =~= old(out)@ + bytes@.take(i as int));
    }
    assert(bytes@.take(i as int) =~= bytes@);
}

/// `n` in upper-case hexadecimal put after the bytes of `out`.
pub fn push_hex(out: &mut Vec<u8>, n: u64)
    ensures
        final(out)@ == old(out)@ + spec_hex(n as nat),
    decreases n,
{
    if n >= 16 {
        push_hex(out, n / 16);
    }
    let d = n % 16;
    let digit: u8 = if d < 10 { 48 + d as u8 } else { 55 + d as u8 };
    out.push(digit);
    assert(out@ =~= old(out)@ + spec_hex(n as nat));
}

/// `n` in upper-case hexadecimal with at least `width` digits put after the bytes of `out`.
pub fn push_hex_padded(out: &mut Vec<u8>, n: u64, width: usize)
    ensures
        final(out)@ == old(out)@ + spec_hex_padded(n as nat, width as nat),
{
    let mut digits: Vec<u8> = Vec::new();
    push_hex(&mut digits, n);
    assert(digits@ =~= spec_hex(n as nat));
    let ghost before = out@;
    let mut i: usize = digits.len();
    while i < width
        invariant
            digits@ == spec_hex(n as nat),
            digits@.len() <= i,
            i <= width || i == digits@.len(),
            out@ == before + Seq::new((i - digits@.len()) as nat, |_j: int| 48u8),
        decreases width - i,
    {
        out.push(48);
        i += 1;
        assert(out@ =~= before + Seq::new((i - digits@.len()) as nat, |_j: int| 48u8));
    }
    push_all(out, digits.as_slice());
    assert(out@ =~= before + spec_hex_padded(n as nat, width as nat));
}

/// An ASCII text as a string. Calls `String::from_utf8_lossy`, which keeps valid UTF-8 as
/// it is; ASCII bytes are valid UTF-8, one character per byte with the byte as its code.
#[verifier::external_body]
pub(crate) fn ascii_string(bytes: Vec<u8>) -> (r: String)
    requires
        spec_is_ascii(bytes@),
    ensures
        r@ == spec_chars(bytes@),
{
    String::from_utf8_lossy(&bytes).into_owned()
}

} // verus!
