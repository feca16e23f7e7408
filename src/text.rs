use vstd::prelude::*;
use vstd::utf8::*;
use vstd::string::*;

verus! {

broadcast use {is_char_boundary_start_end_of_seq, encode_utf8_valid_utf8, decode_utf8_encode_utf8};

/// A cut of a byte sequence next to an ASCII byte, or at one of its ends.
pub open spec fn ascii_cut(b: Seq<u8>, k: int) -> bool {
    ||| k == 0
    ||| k == b.len()
    ||| (0 <= k < b.len() && b[k] < 0x80)
    ||| (0 < k <= b.len() && b[k - 1] < 0x80)
}

proof fn lemma_boundary_after_ascii(b: Seq<u8>, j: int)
    requires
        valid_utf8(b),
        0 <= j < b.len(),
        b[j] < 0x80,
    ensures
        is_char_boundary(b, j + 1),
    decreases b.len(),
{
    let l = length_of_first_scalar(b);
    assert(valid_first_scalar(b));
    assert(valid_utf8(pop_first_scalar(b)));
    if j >= l {
        let p = pop_first_scalar(b);
        assert(p[j - l] == b[j]);
        lemma_boundary_after_ascii(p, j - l);
    } else {
        assert(j == 0 && l == 1);
        assert(is_char_boundary(pop_first_scalar(b), 0));
    }
    reveal_with_fuel(is_char_boundary, 2);
}

/// A cut next to an ASCII byte of valid UTF-8 falls between two characters.
pub proof fn lemma_ascii_cut_boundary(b: Seq<u8>, k: int)
    requires
        valid_utf8(b),
        ascii_cut(b, k),
    ensures
        is_char_boundary(b, k),
{
    if k == 0 || k == b.len() {
    } else if b[k] < 0x80 {
        is_char_boundary_iff_not_is_continuation_byte(b, k);
    } else {
        lemma_boundary_after_ascii(b, k - 1);
    }
}

/// The part of `s` between two cuts next to ASCII bytes.
pub fn slice_str(s: &str, from: usize, to: usize) -> (r: &str)
    requires
        from <= to <= s.spec_bytes().len(),
        ascii_cut(s.spec_bytes(), from as int),
        ascii_cut(s.spec_bytes(), to as int),
    ensures
        r.spec_bytes() == s.spec_bytes().subrange(from as int, to as int),
{
    let ghost b = s.spec_bytes();
    proof {
        lemma_ascii_cut_boundary(b, from as int);
    }
    let (_, rest) = s.split_at(from);
    let ghost c = rest.spec_bytes();
    assert(ascii_cut(c, to - from)) by {
        if to < b.len() && b[to as int] < 0x80 {
            assert(c[to - from] == b[to as int]);
        }
        if 0 < to && b[to - 1] < 0x80 && to > from {
            assert(c[to - from - 1] == b[to - 1]);
        }
    }
    proof {
        lemma_ascii_cut_boundary(c, to - from);
    }
    let (mid, _) = rest.split_at(to - from);
    assert(mid.spec_bytes() =~= b.subrange(from as int, to as int));
    mid
}

/// An owned copy of the part of `s` between two cuts next to ASCII bytes.
pub fn owned_slice(s: &str, from: usize, to: usize) -> (r: String)
    requires
        from <= to <= s.spec_bytes().len(),
        ascii_cut(s.spec_bytes(), from as int),
        ascii_cut(s.spec_bytes(), to as int),
    ensures
        encode_utf8(r@) == s.spec_bytes().subrange(from as int, to as int),
{
    let part = slice_str(s, from, to);
    String::from_str(part)
}

/// Relies on std::str::from_utf8: it accepts exactly the valid UTF-8
/// sequences and reads the characters they encode.
#[verifier::external_body]
pub(crate) fn utf8_str(b: &[u8]) -> (r: Option<&str>)
    ensures
        r is Some <==> valid_utf8(b@),
        r matches Some(s) ==> s@ == decode_utf8(b@),
{
    std::str::from_utf8(b).ok()
}

/// The decimal digits of `n`, most significant first, without leading zeros.
pub open spec fn decimal(n: nat) -> Seq<u8>
    decreases n,
{
    if n < 10 {
        seq![(48 + n) as u8]
    } else {
        decimal(n / 10).push((48 + n % 10) as u8)
    }
}

/// Appends the decimal digits of `n`.
pub fn push_decimal(out: &mut Vec<u8>, n: usize)
    ensures
        final(out)@ == old(out)@ + decimal(n as nat),
    decreases n,
{
    if n >= 10 {
        push_decimal(out, n / 10);
    }
    out.push((48 + n % 10) as u8);
    assert(final(out)@ =~= old(out)@ + decimal(n as nat));
}

/// Appends the bytes of `s`.
pub fn push_str(out: &mut Vec<u8>, s: &str)
    ensures
        final(out)@ == old(out)@ + s.spec_bytes(),
{
    push_bytes(out, s.as_bytes());
}

/// Appends the bytes of `b`.
pub fn push_bytes(out: &mut Vec<u8>, b: &[u8])
    ensures
        final(out)@ == old(out)@ + b@,
{
    let ghost start = out@;
    let mut i: usize = 0;
    while i < b.len()
        invariant
            i <= b@.len(),
            out@ == start + b@.take(i as int),
        decreases b@.len() - i,
    {
        out.push(b[i]);
        i = i + 1;
        assert(out@ =~= start + b@.take(i as int));
    }
    assert(b@.take(i as int) =~= b@);
}

} // verus!
