use vstd::prelude::*;

verus! {

/// ASCII whitespace: tab, line feed, vertical tab, form feed, carriage
/// return and space.
pub open spec fn is_ws(c: u8) -> bool {
    c == 9 || c == 10 || c == 11 || c == 12 || c == 13 || c == 32
}

/// The first position at or after `i` that holds no whitespace, or the end.
pub open spec fn skip_ws(b: Seq<u8>, i: int) -> int
    decreases b.len() - i,
{
    if i >= b.len() {
        b.len() as int
    } else if is_ws(b[i]) {
        skip_ws(b, i + 1)
    } else {
        i
    }
}

/// The first position at or after `i` that holds whitespace, or the end.
pub open spec fn word_end(b: Seq<u8>, i: int) -> int
    decreases b.len() - i,
{
    if i >= b.len() {
        b.len() as int
    } else if is_ws(b[i]) {
        i
    } else {
        word_end(b, i + 1)
    }
}

/// The end of `b[lo..hi]` once trailing whitespace is dropped.
pub open spec fn trim_end(b: Seq<u8>, lo: int, hi: int) -> int
    decreases hi - lo,
{
    if hi <= lo {
        lo
    } else if is_ws(b[hi - 1]) {
        trim_end(b, lo, hi - 1)
    } else {
        hi
    }
}

/// The first position at or after `i` where the pair `c0 c1` starts, or the
/// end of `b` when there is none.
pub open spec fn find_pair(b: Seq<u8>, i: int, c0: u8, c1: u8) -> int
    decreases b.len() - i,
{
    if i + 1 >= b.len() {
        b.len() as int
    } else if b[i] == c0 && b[i + 1] == c1 {
        i
    } else {
        find_pair(b, i + 1, c0, c1)
    }
}

pub fn skip_ws_from(b: &[u8], i: usize) -> (r: usize)
    requires
        i <= b@.len(),
    ensures
        r == skip_ws(b@, i as int),
        i <= r <= b@.len(),
        r < b@.len() ==> !is_ws(b@[r as int]),
        r > i ==> is_ws(b@[r - 1]),
{
    let mut j: usize = i;
    while j < b.len() && (b[j] == 9 || b[j] == 10 || b[j] == 11 || b[j] == 12 || b[j] == 13
        || b[j] == 32)
        invariant
            i <= j <= b@.len(),
            skip_ws(b@, j as int) == skip_ws(b@, i as int),
            j > i ==> is_ws(b@[j - 1]),
        decreases b@.len() - j,
    {
        j = j + 1;
    }
    j
}

pub fn word_end_from(b: &[u8], i: usize) -> (r: usize)
    requires
        i <= b@.len(),
    ensures
        r == word_end(b@, i as int),
        i <= r <= b@.len(),
        r < b@.len() ==> is_ws(b@[r as int]),
{
    let mut j: usize = i;
    while j < b.len() && !(b[j] == 9 || b[j] == 10 || b[j] == 11 || b[j] == 12 || b[j] == 13
        || b[j] == 32)
        invariant
            i <= j <= b@.len(),
            word_end(b@, j as int) == word_end(b@, i as int),
        decreases b@.len() - j,
    {
        j = j + 1;
    }
    j
}

pub fn trim_end_of(b: &[u8], lo: usize, hi: usize) -> (r: usize)
    requires
        lo <= hi <= b@.len(),
    ensures
        r == trim_end(b@, lo as int, hi as int),
        lo <= r <= hi,
        r > lo ==> !is_ws(b@[r - 1]),
        r < hi ==> is_ws(b@[r as int]),
{
    let mut j: usize = hi;
    while j > lo && (b[j - 1] == 9 || b[j - 1] == 10 || b[j - 1] == 11 || b[j - 1] == 12 || b[j
        - 1] == 13 || b[j - 1] == 32)
        invariant
            lo <= j <= hi <= b@.len(),
            trim_end(b@, lo as int, j as int) == trim_end(b@, lo as int, hi as int),
            j < hi ==> is_ws(b@[j as int]),
        decreases j,
    {
        j = j - 1;
    }
    j
}

pub fn find_pair_from(b: &[u8], i: usize, c0: u8, c1: u8) -> (r: usize)
    requires
        i <= b@.len(),
    ensures
        r == find_pair(b@, i as int, c0, c1),
        i <= r <= b@.len(),
        r < b@.len() ==> r + 1 < b@.len() && b@[r as int] == c0 && b@[r + 1] == c1,
{
    let mut j: usize = i;
    while j < b.len() && j + 1 < b.len() && !(b[j] == c0 && b[j + 1] == c1)
        invariant
            i <= j <= b@.len(),
            find_pair(b@, j as int, c0, c1) == find_pair(b@, i as int, c0, c1),
        decreases b@.len() - j,
    {
        j = j + 1;
    }
    if j < b.len() && j + 1 < b.len() {
        j
    } else {
        b.len()
    }
}

/// The value of a run of decimal digits.
pub open spec fn digits_value(d: Seq<u8>) -> nat
    decreases d.len(),
{
    if d.len() == 0 {
        0
    } else {
        digits_value(d.drop_last()) * 10 + (d.last() - 48) as nat
    }
}

pub open spec fn all_digits(d: Seq<u8>) -> bool {
    forall|i: int| 0 <= i < d.len() ==> 48 <= #[trigger] d[i] <= 57
}

/// An unsigned decimal number: an optional `+`, then one or more digits,
/// with a value that fits in `usize`.
pub open spec fn number_of(d: Seq<u8>) -> Option<nat> {
    let ds = if d.len() > 0 && d[0] == 43 {
        d.skip(1)
    } else {
        d
    };
    if ds.len() > 0 && all_digits(ds) && digits_value(ds) <= usize::MAX {
        Some(digits_value(ds))
    } else {
        None
    }
}

proof fn lemma_digits_grow(d: Seq<u8>, i: int)
    requires
        0 <= i <= d.len(),
        all_digits(d),
    ensures
        digits_value(d.take(i)) <= digits_value(d),
    decreases d.len() - i,
{
    if i < d.len() {
        lemma_digits_grow(d, i + 1);
        assert(d.take(i + 1).drop_last() =~= d.take(i));
    }
    assert(d.take(d.len() as int) =~= d);
}

/// Reads an unsigned decimal number from `b[lo..hi]`.
pub fn parse_number(b: &[u8], lo: usize, hi: usize) -> (r: Option<usize>)
    requires
        lo <= hi <= b@.len(),
    ensures
        r matches Some(n) ==> number_of(b@.subrange(lo as int, hi as int)) == Some(n as nat),
        r is None ==> number_of(b@.subrange(lo as int, hi as int)) is None,
{
    let ghost d = b@.subrange(lo as int, hi as int);
    let start: usize = if lo < hi && b[lo] == 43 {
        lo + 1
    } else {
        lo
    };
    let ghost ds = b@.subrange(start as int, hi as int);
    assert(lo < hi ==> d[0] == b@[lo as int]);
    assert(ds =~= (if d.len() > 0 && d[0] == 43 { d.skip(1) } else { d }));
    if start == hi {
        return None;
    }
    let mut acc: usize = 0;
    let mut i: usize = start;
    while i < hi
        invariant
            start <= i <= hi <= b@.len(),
            ds == b@.subrange(start as int, hi as int),
            d == b@.subrange(lo as int, hi as int),
            ds == (if d.len() > 0 && d[0] == 43 { d.skip(1) } else { d }),
            all_digits(ds.take(i - start)),
            acc as nat == digits_value(ds.take(i - start)),
        decreases hi - i,
    {
        let c = b[i];
        assert(ds[i - start] == c);
        if c < 48 || c > 57 {
            assert(!(48 <= ds[i - start] <= 57));
            assert(!all_digits(ds));
            assert(number_of(d) is None);
            return None;
        }
        assert(ds.take(i - start + 1).drop_last() =~= ds.take(i - start));
        if acc > (usize::MAX - (c - 48) as usize) / 10 {
            proof {
                let k = i - start + 1;
                assert(all_digits(ds.take(k)));
                let dv = (c - 48) as int;
                assert(ds.take(k).last() == c);
                assert(digits_value(ds.take(k)) == acc * 10 + dv);
                assert(acc * 10 + dv > usize::MAX) by (nonlinear_arith)
                    requires
                        acc > (usize::MAX - dv) / 10,
                        0 <= dv <= 9,
                ;
                if all_digits(ds) {
                    lemma_digits_grow(ds, i - start + 1);
                }
                assert(number_of(d) is None);
            }
            return None;
        }
        acc = acc * 10 + (c - 48) as usize;
        i = i + 1;
        assert(all_digits(ds.take(i - start)));
    }
    assert(ds.take(i - start) =~= ds);
    Some(acc)
}

/// Whether two byte runs are equal.
pub fn bytes_eq(a: &[u8], b: &[u8]) -> (r: bool)
    ensures
        r == (a@ == b@),
{
    if a.len() != b.len() {
        return false;
    }
    let mut i: usize = 0;
    while i < a.len()
        invariant
            a@.len() == b@.len(),
            i <= a@.len(),
            a@.take(i as int) == b@.take(i as int),
        decreases a@.len() - i,
    {
        if a[i] != b[i] {
            assert(a@.take(i + 1)[i as int] != b@.take(i + 1)[i as int]);
            return false;
        }
        assert(a@.take(i + 1) =~= a@.take(i as int).push(a[i as int]));
        assert(b@.take(i + 1) =~= b@.take(i as int).push(b[i as int]));
        i = i + 1;
    }
    assert(a@ =~= a@.take(i as int));
    assert(b@ =~= b@.take(i as int));
    true
}

} // verus!
