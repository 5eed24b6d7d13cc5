//! Byte-string utilities.
//!
//! All textual data in this crate (source text, node kinds, names, paths)
//! is carried as UTF-8 bytes in `Vec<u8>`.  The helpers here give the exact
//! sequence-level meaning of the string operations the extractors use:
//! equality with a literal, prefix/suffix/substring tests, searching,
//! ASCII upper-casing and decimal parsing.

use vstd::prelude::*;

verus! {

use vstd::string::StringSliceAdditionalSpecFns;
use vstd::slice::slice_to_vec;

/// The UTF-8 bytes of a string literal.
pub open spec fn lit_bytes(s: &str) -> Seq<u8> {
    s.spec_bytes()
}

/// `pat` occurs in `hay` starting at position `i`.
pub open spec fn match_at(hay: Seq<u8>, pat: Seq<u8>, i: int) -> bool {
    0 <= i && i + pat.len() <= hay.len() && hay.subrange(i, i + pat.len() as int) == pat
}

/// `pat` occurs somewhere in `hay`.
pub open spec fn contains_seq(hay: Seq<u8>, pat: Seq<u8>) -> bool {
    exists|i: int| match_at(hay, pat, i)
}

/// `hay` begins with `pat`.
pub open spec fn has_prefix(hay: Seq<u8>, pat: Seq<u8>) -> bool {
    match_at(hay, pat, 0)
}

/// `hay` ends with `pat`.
pub open spec fn has_suffix(hay: Seq<u8>, pat: Seq<u8>) -> bool {
    match_at(hay, pat, hay.len() - pat.len())
}

/// Exact byte-sequence equality of two slices.
pub fn bytes_eq(a: &[u8], b: &[u8]) -> (r: bool)
    ensures
        r == (a@ == b@),
{
    if a.len() != b.len() {
        assert(a@.len() != b@.len());
        return false;
    }
    let n: usize = a.len();
    let mut i: usize = 0;
    while i < n
        invariant
            n == a@.len(),
            n == b@.len(),
            i <= n,
            forall|j: int| 0 <= j < i ==> a@[j] == b@[j],
        decreases n - i,
    {
        if a[i] != b[i] {
            proof {
                if a@ == b@ {
                    assert(a@[i as int] == b@[i as int]);
                }
            }
            return false;
        }
        i = i + 1;
    }
    assert(a@ =~= b@);
    true
}

/// The byte slice holds exactly the bytes of the literal `s`.
pub fn bytes_eq_str(k: &[u8], s: &str) -> (r: bool)
    ensures
        r == (k@ == lit_bytes(s)),
{
    bytes_eq(k, s.as_bytes())
}

/// `pat` matches `hay` at position `i`.
pub fn match_at_exec(hay: &[u8], pat: &[u8], i: usize) -> (r: bool)
    ensures
        r == match_at(hay@, pat@, i as int),
{
    if i > hay.len() {
        return false;
    }
    if pat.len() > hay.len() - i {
        return false;
    }
    let hn: usize = hay.len();
    let n: usize = pat.len();
    let mut j: usize = 0;
    while j < n
        invariant
            hn == hay@.len(),
            n == pat@.len(),
            i + n <= hn,
            j <= n,
            forall|m: int| 0 <= m < j ==> hay@[i + m] == pat@[m],
        decreases n - j,
    {
        if hay[i + j] != pat[j] {
            proof {
                if hay@.subrange(i as int, i + pat@.len() as int) == pat@ {
                    assert(hay@.subrange(i as int, i + pat@.len() as int)[j as int] == pat@[j as int]);
                }
            }
            return false;
        }
        j = j + 1;
    }
    assert(hay@.subrange(i as int, i + pat@.len() as int) =~= pat@);
    true
}

/// `hay` begins with the bytes of the literal `s`.
pub fn starts_with_lit(hay: &[u8], s: &str) -> (r: bool)
    ensures
        r == has_prefix(hay@, lit_bytes(s)),
{
    match_at_exec(hay, s.as_bytes(), 0)
}

/// `hay` ends with the bytes of the literal `s`.
pub fn ends_with_lit(hay: &[u8], s: &str) -> (r: bool)
    ensures
        r == has_suffix(hay@, lit_bytes(s)),
{
    let pat: &[u8] = s.as_bytes();
    if pat.len() > hay.len() {
        return false;
    }
    match_at_exec(hay, pat, hay.len() - pat.len())
}

/// First position where `pat` matches `hay`, if any.
pub fn find_sub(hay: &[u8], pat: &[u8]) -> (r: Option<usize>)
    ensures
        match r {
            Some(i) => match_at(hay@, pat@, i as int) && forall|j: int|
                0 <= j < i ==> !match_at(hay@, pat@, j),
            None => !contains_seq(hay@, pat@),
        },
{
    if pat.len() > hay.len() {
        assert(forall|j: int| !match_at(hay@, pat@, j));
        return None;
    }
    if pat.len() == 0 {
        assert(hay@.subrange(0, 0) =~= pat@);
        return Some(0);
    }
    let last: usize = hay.len() - pat.len();
    let mut i: usize = 0;
    while i <= last
        invariant
            1 <= pat@.len() <= hay@.len(),
            last == hay@.len() - pat@.len(),
            last < usize::MAX,
            i <= last + 1,
            forall|j: int| 0 <= j < i ==> !match_at(hay@, pat@, j),
        decreases last + 1 - i,
    {
        if match_at_exec(hay, pat, i) {
            return Some(i);
        }
        i = i + 1;
    }
    assert(forall|j: int| j > last ==> !match_at(hay@, pat@, j));
    None
}

/// Whether the bytes of the literal `s` occur in `hay`.
pub fn contains_lit(hay: &[u8], s: &str) -> (r: bool)
    ensures
        r == contains_seq(hay@, lit_bytes(s)),
{
    let f = find_sub(hay, s.as_bytes());
    match f {
        Some(i) => {
            assert(contains_seq(hay@, lit_bytes(s)));
            true
        },
        None => false,
    }
}

/// Last position holding byte `c`, if any.
pub fn rfind_byte(hay: &[u8], c: u8) -> (r: Option<usize>)
    ensures
        match r {
            Some(i) => i < hay@.len() && hay@[i as int] == c && forall|j: int|
                i < j < hay@.len() ==> hay@[j] != c,
            None => forall|j: int| 0 <= j < hay@.len() ==> hay@[j] != c,
        },
{
    let mut i: usize = hay.len();
    while i > 0
        invariant
            i <= hay@.len(),
            forall|j: int| i <= j < hay@.len() ==> hay@[j] != c,
        decreases i,
    {
        i = i - 1;
        if hay[i] == c {
            return Some(i);
        }
    }
    None
}

/// First position holding byte `c`, if any.
pub fn find_byte(hay: &[u8], c: u8) -> (r: Option<usize>)
    ensures
        match r {
            Some(i) => i < hay@.len() && hay@[i as int] == c && forall|j: int|
                0 <= j < i ==> hay@[j] != c,
            None => forall|j: int| 0 <= j < hay@.len() ==> hay@[j] != c,
        },
{
    let n: usize = hay.len();
    let mut i: usize = 0;
    while i < n
        invariant
            n == hay@.len(),
            i <= n,
            forall|j: int| 0 <= j < i ==> hay@[j] != c,
        decreases n - i,
    {
        if hay[i] == c {
            return Some(i);
        }
        i = i + 1;
    }
    None
}

/// ASCII upper-casing of one byte.
pub open spec fn upper_byte(b: u8) -> u8 {
    if 97 <= b && b <= 122 {
        (b - 32) as u8
    } else {
        b
    }
}

/// ASCII upper-casing of a byte sequence.
pub open spec fn upper_seq(s: Seq<u8>) -> Seq<u8> {
    s.map_values(|b: u8| upper_byte(b))
}

/// ASCII upper-case copy of `v`.
pub fn to_upper(v: &[u8]) -> (r: Vec<u8>)
    ensures
        r@ == upper_seq(v@),
{
    let n: usize = v.len();
    let mut out: Vec<u8> = Vec::new();
    let mut i: usize = 0;
    while i < n
        invariant
            n == v@.len(),
            i <= n,
            out@.len() == i,
            forall|j: int| 0 <= j < i ==> out@[j] == upper_byte(v@[j]),
        decreases n - i,
    {
        let b: u8 = v[i];
        if 97 <= b && b <= 122 {
            out.push(b - 32);
        } else {
            out.push(b);
        }
        i = i + 1;
    }
    assert(out@ =~= upper_seq(v@));
    out
}

/// A copy of the slice as an owned vector.
pub fn bytes_to_vec(v: &[u8]) -> (r: Vec<u8>)
    ensures
        r@ == v@,
{
    slice_to_vec(v)
}

/// The bytes of the literal `s` as an owned vector.
pub fn lit_to_vec(s: &str) -> (r: Vec<u8>)
    ensures
        r@ == lit_bytes(s),
{
    slice_to_vec(s.as_bytes())
}

/// Appends a copy of `b` to `a`.
pub fn append_bytes(a: &mut Vec<u8>, b: &[u8])
    ensures
        final(a)@ == old(a)@ + b@,
{
    let n: usize = b.len();
    let mut i: usize = 0;
    while i < n
        invariant
            n == b@.len(),
            i <= n,
            a@ == old(a)@ + b@.subrange(0, i as int),
        decreases n - i,
    {
        a.push(b[i]);
        assert(old(a)@ + b@.subrange(0, i as int) + seq![b@[i as int]] =~= old(a)@ + b@.subrange(
            0,
            i + 1,
        ));
        i = i + 1;
    }
    assert(b@.subrange(0, n as int) =~= b@);
}

/// All bytes are ASCII decimal digits.
pub open spec fn all_digits(s: Seq<u8>) -> bool {
    forall|i: int| 0 <= i < s.len() ==> 48 <= #[trigger] s[i] <= 57
}

/// The value of a decimal digit string.
pub open spec fn dec_val(s: Seq<u8>) -> int
    decreases s.len(),
{
    if s.len() == 0 {
        0
    } else {
        dec_val(s.drop_last()) * 10 + (s.last() - 48)
    }
}

proof fn lemma_dec_val_nonneg(s: Seq<u8>)
    requires
        all_digits(s),
    ensures
        dec_val(s) >= 0,
    decreases s.len(),
{
    if s.len() > 0 {
        assert(all_digits(s.drop_last())) by {
            assert(forall|i: int|
                0 <= i < s.drop_last().len() ==> s.drop_last()[i] == s[i] && 48 <= s[i] <= 57);
        }
        lemma_dec_val_nonneg(s.drop_last());
    }
}

proof fn lemma_dec_val_extend(s: Seq<u8>, n: int)
    requires
        all_digits(s),
        0 <= n <= s.len(),
    ensures
        dec_val(s) >= dec_val(s.subrange(0, n)),
    decreases s.len() - n,
{
    if n < s.len() {
        lemma_dec_val_extend(s, n + 1);
        let p1 = s.subrange(0, n + 1);
        let p0 = s.subrange(0, n);
        assert(p1.drop_last() =~= p0);
        assert(all_digits(p0)) by {
            assert(forall|i: int| 0 <= i < p0.len() ==> p0[i] == s[i] && 48 <= s[i] <= 57);
        }
        lemma_dec_val_nonneg(p0);
        assert(dec_val(p1) == dec_val(p0) * 10 + (p1.last() - 48));
        assert(dec_val(p0) * 10 >= dec_val(p0)) by (nonlinear_arith)
            requires
                dec_val(p0) >= 0,
        ;
    } else {
        assert(s.subrange(0, n) =~= s);
    }
}

/// Parses an ASCII decimal number.  Returns the value exactly when the
/// input is a non-empty digit string whose value fits in a `u64`.
pub fn parse_u64_dec(v: &[u8]) -> (r: Option<u64>)
    ensures
        r.is_some() <==> (v@.len() > 0 && all_digits(v@) && dec_val(v@) <= u64::MAX),
        r.is_some() ==> r.unwrap() as int == dec_val(v@),
{
    let n: usize = v.len();
    if n == 0 {
        return None;
    }
    let mut acc: u64 = 0;
    let mut i: usize = 0;
    while i < n
        invariant
            n == v@.len(),
            i <= n,
            all_digits(v@.subrange(0, i as int)),
            acc as int == dec_val(v@.subrange(0, i as int)),
        decreases n - i,
    {
        let b: u8 = v[i];
        if b < 48 || b > 57 {
            assert(!(48 <= v@[i as int] <= 57));
            return None;
        }
        let d: u64 = (b - 48) as u64;
        proof {
            assert(all_digits(v@.subrange(0, i + 1))) by {
                assert(forall|j: int|
                    0 <= j < i + 1 ==> v@.subrange(0, i + 1)[j] == v@[j] && (j < i ==> 48 <= v@[j]
                        <= 57));
            }
        }
        if acc > (u64::MAX - d) / 10 {
            proof {
                let p1 = v@.subrange(0, i + 1);
                assert(p1.drop_last() =~= v@.subrange(0, i as int));
                assert(dec_val(p1) == acc * 10 + d);
                assert(acc * 10 + d > u64::MAX) by (nonlinear_arith)
                    requires
                        acc > (u64::MAX - d) / 10,
                        0 <= d <= 9,
                        acc <= u64::MAX,
                ;
                if all_digits(v@) {
                    lemma_dec_val_extend(v@, i + 1);
                }
            }
            return None;
        }
        proof {
            let p1 = v@.subrange(0, i + 1);
            assert(p1.drop_last() =~= v@.subrange(0, i as int));
            assert(acc * 10 + d <= u64::MAX) by (nonlinear_arith)
                requires
                    acc <= (u64::MAX - d) / 10,
                    0 <= d <= 9,
                    acc >= 0,
            ;
        }
        acc = acc * 10 + d;
        i = i + 1;
    }
    assert(v@.subrange(0, n as int) =~= v@);
    Some(acc)
}


/// Index of the last occurrence of `c` in `s`, if any.
pub open spec fn last_ix(s: Seq<u8>, c: u8) -> Option<int>
    decreases s.len(),
{
    if s.len() == 0 {
        None
    } else if s.last() == c {
        Some(s.len() - 1)
    } else {
        last_ix(s.drop_last(), c)
    }
}

proof fn lemma_last_ix_some(s: Seq<u8>, c: u8, i: int)
    requires
        0 <= i < s.len(),
        s[i] == c,
        forall|j: int| i < j < s.len() ==> s[j] != c,
    ensures
        last_ix(s, c) == Some(i),
    decreases s.len(),
{
    if i == s.len() - 1 {
    } else {
        assert(s.last() != c);
        assert(forall|j: int| i < j < s.drop_last().len() ==> s.drop_last()[j] != c);
        assert(s.drop_last()[i] == c);
        lemma_last_ix_some(s.drop_last(), c, i);
    }
}

proof fn lemma_last_ix_none(s: Seq<u8>, c: u8)
    requires
        forall|j: int| 0 <= j < s.len() ==> s[j] != c,
    ensures
        last_ix(s, c).is_none(),
    decreases s.len(),
{
    if s.len() > 0 {
        assert(forall|j: int| 0 <= j < s.drop_last().len() ==> s.drop_last()[j] != c);
        lemma_last_ix_none(s.drop_last(), c);
    }
}

/// Splits `v` at the last occurrence of `c`: the part before it and the
/// part after it.  Without an occurrence the head is `None` and the tail
/// is the whole input.
pub fn split_at_last(v: &[u8], c: u8) -> (r: (Option<Vec<u8>>, Vec<u8>))
    ensures
        match last_ix(v@, c) {
            Some(d) => r.0.is_some() && r.0.unwrap()@ == v@.subrange(0, d) && r.1@ == v@.subrange(
                d + 1,
                v@.len() as int,
            ),
            None => r.0.is_none() && r.1@ == v@,
        },
{
    let n: usize = v.len();
    let d = rfind_byte(v, c);
    match d {
        Some(i) => {
            proof {
                lemma_last_ix_some(v@, c, i as int);
            }
            let head = bytes_to_vec(vstd::slice::slice_subrange(v, 0, i));
            let tail = bytes_to_vec(vstd::slice::slice_subrange(v, i + 1, n));
            (Some(head), tail)
        },
        None => {
            proof {
                lemma_last_ix_none(v@, c);
            }
            (None, bytes_to_vec(v))
        },
    }
}

/// The split of a callee expression at its rightmost dot recombines to the
/// original expression; without a dot the tail is the whole expression.
pub proof fn lemma_split_recombines(s: Seq<u8>, c: u8)
    ensures
        match last_ix(s, c) {
            Some(d) => 0 <= d < s.len() && s[d] == c && s =~= s.subrange(0, d) + seq![c]
                + s.subrange(d + 1, s.len() as int),
            None => forall|j: int| 0 <= j < s.len() ==> s[j] != c,
        },
    decreases s.len(),
{
    if s.len() > 0 {
        if s.last() == c {
            assert(s =~= s.subrange(0, s.len() - 1) + seq![c] + s.subrange(
                s.len() as int,
                s.len() as int,
            ));
        } else {
            lemma_split_recombines(s.drop_last(), c);
            if last_ix(s, c).is_none() {
                assert(forall|j: int|
                    0 <= j < s.len() - 1 ==> s[j] == s.drop_last()[j] && s.drop_last()[j] != c);
            }
            if last_ix(s, c).is_some() {
                let d = last_ix(s, c).unwrap();
                assert(s.drop_last() =~= s.subrange(0, s.len() - 1));
                assert(s.drop_last()[d] == s[d]);
                assert(s =~= s.drop_last() + seq![s.last()]);
                assert(s.drop_last().subrange(0, d) =~= s.subrange(0, d));
                assert(s.drop_last().subrange(d + 1, s.drop_last().len() as int) + seq![s.last()]
                    =~= s.subrange(d + 1, s.len() as int));
            }
        }
    }
}


/// First position at or after `j` where `pat` matches `hay`.
pub open spec fn first_occur_from(hay: Seq<u8>, pat: Seq<u8>, j: int) -> Option<int>
    decreases hay.len() - j
        when 0 <= j <= hay.len()
{
    if j + pat.len() > hay.len() {
        None
    } else if pat.len() == 0 {
        Some(j)
    } else if hay.subrange(j, j + pat.len() as int) == pat {
        Some(j)
    } else {
        first_occur_from(hay, pat, j + 1)
    }
}

/// First position where `pat` matches `hay`.
pub open spec fn first_occur(hay: Seq<u8>, pat: Seq<u8>) -> Option<int> {
    first_occur_from(hay, pat, 0)
}

proof fn lemma_first_occur_some(hay: Seq<u8>, pat: Seq<u8>, i: int, j: int)
    requires
        0 <= j <= i,
        match_at(hay, pat, i),
        forall|m: int| j <= m < i ==> !match_at(hay, pat, m),
    ensures
        first_occur_from(hay, pat, j) == Some(i),
    decreases i - j,
{
    if j < i {
        assert(!match_at(hay, pat, j));
        if pat.len() == 0 {
            assert(hay.subrange(j, j + pat.len() as int) =~= pat);
            assert(match_at(hay, pat, j));
        }
        lemma_first_occur_some(hay, pat, i, j + 1);
    }
}

proof fn lemma_first_occur_none(hay: Seq<u8>, pat: Seq<u8>, j: int)
    requires
        0 <= j <= hay.len(),
        forall|m: int| j <= m ==> !match_at(hay, pat, m),
    ensures
        first_occur_from(hay, pat, j).is_none(),
    decreases hay.len() - j,
{
    if j + pat.len() <= hay.len() {
        assert(!match_at(hay, pat, j));
        if pat.len() == 0 {
            assert(hay.subrange(j, j + pat.len() as int) =~= pat);
            assert(match_at(hay, pat, j));
        } else {
            lemma_first_occur_none(hay, pat, j + 1);
        }
    }
}

/// First position where the bytes of the literal `s` match `hay`, as the
/// spec-level `first_occur` sees it.
pub fn find_first_lit(hay: &[u8], s: &str) -> (r: Option<usize>)
    ensures
        match r {
            Some(i) => Some(i as int) == first_occur(hay@, lit_bytes(s)) && match_at(
                hay@,
                lit_bytes(s),
                i as int,
            ),
            None => first_occur(hay@, lit_bytes(s)).is_none(),
        },
{
    let f = find_sub(hay, s.as_bytes());
    match f {
        Some(i) => {
            proof {
                lemma_first_occur_some(hay@, lit_bytes(s), i as int, 0);
            }
            Some(i)
        },
        None => {
            proof {
                lemma_first_occur_none(hay@, lit_bytes(s), 0);
            }
            None
        },
    }
}

/// The prefix of `s` before the first occurrence of byte `c`; the whole
/// sequence when `c` does not occur.
pub open spec fn upto_byte(s: Seq<u8>, c: u8) -> Seq<u8> {
    if exists|d: int| 0 <= d < s.len() && s[d] == c {
        let d = choose|d: int|
            0 <= d < s.len() && s[d] == c && forall|j: int| 0 <= j < d ==> s[j] != c;
        s.subrange(0, d)
    } else {
        s
    }
}

/// The prefix of `v` before the first occurrence of `c`.
pub fn take_until(v: &[u8], c: u8) -> (r: Vec<u8>)
    ensures
        r@ == upto_byte(v@, c),
{
    match find_byte(v, c) {
        Some(d) => {
            proof {
                let w = d as int;
                assert(0 <= w < v@.len() && v@[w] == c && forall|j: int| 0 <= j < w ==> v@[j] != c);
                let ch = choose|ch: int|
                    0 <= ch < v@.len() && v@[ch] == c && forall|j: int| 0 <= j < ch ==> v@[j] != c;
                if ch < w {
                    assert(v@[ch] != c);
                }
                if w < ch {
                    assert(v@[w] != c);
                }
                assert(ch == w);
            }
            bytes_to_vec(vstd::slice::slice_subrange(v, 0, d))
        },
        None => {
            assert(!(exists|d: int| 0 <= d < v@.len() && v@[d] == c));
            bytes_to_vec(v)
        },
    }
}

/// The maximal prefix of `s` made of ASCII decimal digits.
pub open spec fn digit_prefix(s: Seq<u8>) -> Seq<u8> {
    if exists|d: int| 0 <= d < s.len() && !(48 <= #[trigger] s[d] <= 57) {
        let d = choose|d: int|
            0 <= d < s.len() && !(48 <= #[trigger] s[d] <= 57) && forall|j: int|
                0 <= j < d ==> 48 <= #[trigger] s[j] <= 57;
        s.subrange(0, d)
    } else {
        s
    }
}

/// The maximal digit prefix of `v`.
pub fn take_digits(v: &[u8]) -> (r: Vec<u8>)
    ensures
        r@ == digit_prefix(v@),
{
    let n: usize = v.len();
    let mut i: usize = 0;
    while i < n
        invariant
            n == v@.len(),
            i <= n,
            forall|j: int| 0 <= j < i ==> 48 <= #[trigger] v@[j] <= 57,
        decreases n - i,
    {
        let b = v[i];
        if b < 48 || b > 57 {
            proof {
                let w = i as int;
                assert(0 <= w < v@.len() && !(48 <= v@[w] <= 57) && forall|j: int|
                    0 <= j < w ==> 48 <= #[trigger] v@[j] <= 57);
                let ch = choose|ch: int|
                    0 <= ch < v@.len() && !(48 <= #[trigger] v@[ch] <= 57) && forall|j: int|
                        0 <= j < ch ==> 48 <= #[trigger] v@[j] <= 57;
                if ch < w {
                    assert(48 <= v@[ch] <= 57);
                }
                if w < ch {
                    assert(48 <= v@[w] <= 57);
                }
                assert(ch == w);
            }
            return bytes_to_vec(vstd::slice::slice_subrange(v, 0, i));
        }
        i = i + 1;
    }
    assert(!(exists|d: int| 0 <= d < v@.len() && !(48 <= #[trigger] v@[d] <= 57)));
    assert(v@.subrange(0, n as int) =~= v@);
    bytes_to_vec(v)
}

/// Start of the last occurrence of two adjacent colons in `s`, if any.
pub open spec fn last_coloncolon(s: Seq<u8>) -> Option<int>
    decreases s.len(),
{
    if s.len() < 2 {
        None
    } else if s[s.len() - 2] == 58 && s[s.len() - 1] == 58 {
        Some(s.len() - 2)
    } else {
        last_coloncolon(s.drop_last())
    }
}

/// Start of the last `"::"` in `v`, if any.
pub fn rfind_coloncolon(v: &[u8]) -> (r: Option<usize>)
    ensures
        match r {
            Some(i) => Some(i as int) == last_coloncolon(v@) && i + 2 <= v@.len(),
            None => last_coloncolon(v@).is_none(),
        },
{
    let n: usize = v.len();
    assert(v@.subrange(0, n as int) =~= v@);
    let mut k: usize = n;
    while k >= 2
        invariant
            n == v@.len(),
            k <= n,
            last_coloncolon(v@) == last_coloncolon(v@.subrange(0, k as int)),
        decreases k,
    {
        proof {
            assert(v@.subrange(0, k as int).drop_last() =~= v@.subrange(0, k - 1));
        }
        if v[k - 2] == 58 && v[k - 1] == 58 {
            assert(v@.subrange(0, k as int)[k - 2] == v@[k - 2]);
            assert(v@.subrange(0, k as int)[k - 1] == v@[k - 1]);
            return Some(k - 2);
        }
        assert(v@.subrange(0, k as int)[k - 2] == v@[k - 2]);
        assert(v@.subrange(0, k as int)[k - 1] == v@[k - 1]);
        k = k - 1;
    }
    assert(v@.subrange(0, k as int).len() < 2);
    None
}


/// Two optional byte strings agree up to their byte sequences.
pub open spec fn opt_bytes_eqv(a: Option<Vec<u8>>, b: Option<Vec<u8>>) -> bool {
    match (a, b) {
        (Some(x), Some(y)) => x@ == y@,
        (None, None) => true,
        _ => false,
    }
}

/// An owned copy of an optional byte string.
pub fn clone_opt_bytes(o: &Option<Vec<u8>>) -> (r: Option<Vec<u8>>)
    ensures
        opt_bytes_eqv(r, *o),
{
    match o {
        Some(v) => Some(bytes_to_vec(v.as_slice())),
        None => None,
    }
}

} // verus!



