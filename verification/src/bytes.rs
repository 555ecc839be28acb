//! Small verified helpers on byte strings: substring search, prefixes,
//! trimming, ASCII case mapping and decimal formatting.
use vstd::prelude::*;
use vstd::string::StringSliceAdditionalSpecFns;

verus! {

/// The bytes of a string literal, the form the rest of the crate works in.
pub open spec fn lit(s: &str) -> Seq<u8> {
    s.spec_bytes()
}

/// The bytes of a string slice as an owned vector.
pub fn lit_vec(s: &str) -> (r: Vec<u8>)
    ensures
        r@ =~= lit(s),
{
    vstd::slice::slice_to_vec(s.as_bytes())
}

/// The pattern `pat` occurs in `s` at position `i`.
pub open spec fn matches_at(s: Seq<u8>, pat: Seq<u8>, i: int) -> bool {
    0 <= i && i + pat.len() <= s.len() && s.subrange(i, i + pat.len()) =~= pat
}

/// `pat` occurs somewhere in `s`.
pub open spec fn contains_seq(s: Seq<u8>, pat: Seq<u8>) -> bool {
    exists|i: int| matches_at(s, pat, i)
}

/// Index of the first occurrence of `pat` in `s`, if any.
pub open spec fn first_match(s: Seq<u8>, pat: Seq<u8>) -> Option<int> {
    if contains_seq(s, pat) {
        Some(choose|i: int| matches_at(s, pat, i) && forall|j: int| 0 <= j < i ==> !matches_at(s, pat, j))
    } else {
        None
    }
}

pub proof fn lemma_first_match_exists(s: Seq<u8>, pat: Seq<u8>)
    requires
        contains_seq(s, pat),
    ensures
        exists|i: int| matches_at(s, pat, i) && forall|j: int| 0 <= j < i ==> !matches_at(s, pat, j),
{
    let k = choose|i: int| matches_at(s, pat, i);
    lemma_least_match(s, pat, k);
}

proof fn lemma_least_match(s: Seq<u8>, pat: Seq<u8>, k: int)
    requires
        matches_at(s, pat, k),
    ensures
        exists|i: int| matches_at(s, pat, i) && forall|j: int| 0 <= j < i ==> !matches_at(s, pat, j),
    decreases k,
{
    if forall|j: int| 0 <= j < k ==> !matches_at(s, pat, j) {
        assert(matches_at(s, pat, k) && forall|j: int| 0 <= j < k ==> !matches_at(s, pat, j));
    } else {
        let k2 = choose|j: int| 0 <= j < k && matches_at(s, pat, j);
        lemma_least_match(s, pat, k2);
    }
}

/// A `Some` answer of `first_match` is a minimal match position.
pub proof fn lemma_first_match_some(s: Seq<u8>, pat: Seq<u8>, i: int)
    requires
        first_match(s, pat) == Some(i),
    ensures
        matches_at(s, pat, i),
        forall|j: int| 0 <= j < i ==> !matches_at(s, pat, j),
{
    lemma_first_match_exists(s, pat);
}

/// First occurrence of `pat` in `s`, or `None`.
pub fn find_sub(s: &[u8], pat: &[u8]) -> (r: Option<usize>)
    ensures
        r matches Some(i) ==> first_match(s@, pat@) == Some(i as int),
        r is None ==> first_match(s@, pat@) is None,
{
    if pat.len() == 0 {
        assert(s@.subrange(0, 0) =~= pat@);
        assert(matches_at(s@, pat@, 0));
        proof {
            lemma_least_match(s@, pat@, 0);
            let r = choose|m: int| matches_at(s@, pat@, m) && forall|j: int| 0 <= j < m
                ==> !matches_at(s@, pat@, j);
            assert(r == 0);
        }
        return Some(0);
    }
    if pat.len() > s.len() {
        assert(!contains_seq(s@, pat@));
        return None;
    }
    let slen: usize = s.len();
    let plen: usize = pat.len();
    let mut i: usize = 0;
    let last: usize = slen - plen;
    while i <= last
        invariant
            slen == s@.len(),
            plen == pat@.len(),
            1 <= plen <= slen,
            last == slen - plen,
            0 <= i <= last + 1,
            forall|j: int| 0 <= j < i ==> !matches_at(s@, pat@, j),
        decreases last - i + 1,
    {
        let mut k: usize = 0;
        let mut hit = true;
        while hit && k < plen
            invariant
                slen == s@.len(),
                plen == pat@.len(),
                0 <= k <= plen,
                i <= last,
                last == slen - plen,
                plen <= slen,
                hit ==> s@.subrange(i as int, i + k) =~= pat@.subrange(0, k as int),
                !hit ==> !matches_at(s@, pat@, i as int),
            decreases (if hit { 1int } else { 0int }), plen - k,
    {
            if s[i + k] != pat[k] {
                hit = false;
                assert(!matches_at(s@, pat@, i as int)) by {
                    if matches_at(s@, pat@, i as int) {
                        assert(s@.subrange(i as int, i + pat@.len())[k as int] == pat@[k as int]);
                    }
                }
            } else {
                assert(s@.subrange(i as int, i + k + 1) =~= s@.subrange(i as int, i + k).push(
                    s@[i + k],
                ));
                assert(pat@.subrange(0, k as int + 1) =~= pat@.subrange(0, k as int).push(
                    pat@[k as int],
                ));
                k = k + 1;
            }
        }
        if hit {
            assert(pat@.subrange(0, pat@.len() as int) =~= pat@);
            assert(matches_at(s@, pat@, i as int));
            proof {
                lemma_least_match(s@, pat@, i as int);
                let r = choose|m: int| matches_at(s@, pat@, m) && forall|j: int| 0 <= j < m
                    ==> !matches_at(s@, pat@, j);
                assert(r == i as int);
            }
            return Some(i);
        }
        i = i + 1;
    }
    assert(forall|j: int| matches_at(s@, pat@, j) ==> 0 <= j <= last);
    assert(!contains_seq(s@, pat@));
    None
}

/// Whether `pat` occurs in `s`.
pub fn contains_sub(s: &[u8], pat: &[u8]) -> (r: bool)
    ensures
        r == contains_seq(s@, pat@),
{
    let f = find_sub(s, pat);
    proof {
        if contains_seq(s@, pat@) {
            lemma_first_match_exists(s@, pat@);
        }
    }
    f.is_some()
}

/// `s` starts with `pre`.
pub open spec fn starts_with_seq(s: Seq<u8>, pre: Seq<u8>) -> bool {
    pre.len() <= s.len() && s.subrange(0, pre.len() as int) =~= pre
}

/// Whether `s` starts with `pre`.
pub fn starts_with(s: &[u8], pre: &[u8]) -> (r: bool)
    ensures
        r == starts_with_seq(s@, pre@),
{
    if pre.len() > s.len() {
        return false;
    }
    let mut k: usize = 0;
    while k < pre.len()
        invariant
            0 <= k <= pre@.len() <= s@.len(),
            forall|j: int| 0 <= j < k ==> s@[j] == pre@[j],
        decreases pre@.len() - k,
    {
        if s[k] != pre[k] {
            assert(s@.subrange(0, pre@.len() as int)[k as int] != pre@[k as int]);
            return false;
        }
        k = k + 1;
    }
    assert(s@.subrange(0, pre@.len() as int) =~= pre@);
    true
}

/// `s` ends with `suf`.
pub open spec fn ends_with_seq(s: Seq<u8>, suf: Seq<u8>) -> bool {
    suf.len() <= s.len() && s.subrange(s.len() - suf.len(), s.len() as int) =~= suf
}

/// Whether `s` ends with `suf`.
pub fn ends_with(s: &[u8], suf: &[u8]) -> (r: bool)
    ensures
        r == ends_with_seq(s@, suf@),
{
    if suf.len() > s.len() {
        return false;
    }
    let slen: usize = s.len();
    let sflen: usize = suf.len();
    let off: usize = slen - sflen;
    let mut k: usize = 0;
    while k < sflen
        invariant
            slen == s@.len(),
            sflen == suf@.len(),
            0 <= k <= sflen <= slen,
            off == slen - sflen,
            forall|j: int| 0 <= j < k ==> s@[off + j] == suf@[j],
        decreases sflen - k,
    {
        if s[off + k] != suf[k] {
            assert(s@.subrange(off as int, s@.len() as int)[k as int] != suf@[k as int]);
            return false;
        }
        k = k + 1;
    }
    assert(s@.subrange(off as int, s@.len() as int) =~= suf@);
    true
}

/// The two byte strings are equal.
pub fn bytes_eq(a: &[u8], b: &[u8]) -> (r: bool)
    ensures
        r <==> a@ =~= b@,
{
    if a.len() != b.len() {
        return false;
    }
    let mut k: usize = 0;
    while k < a.len()
        invariant
            0 <= k <= a@.len(),
            a@.len() == b@.len(),
            forall|j: int| 0 <= j < k ==> a@[j] == b@[j],
        decreases a@.len() - k,
    {
        if a[k] != b[k] {
            return false;
        }
        k = k + 1;
    }
    true
}

/// Index of the first occurrence of `b` in `s`; `s.len()` where `b` is
/// absent.
pub open spec fn idx_of(s: Seq<u8>, b: u8) -> nat
    decreases s.len(),
{
    if s.len() == 0 {
        0
    } else if s[0] == b {
        0
    } else {
        1 + idx_of(s.drop_first(), b)
    }
}

/// `idx_of` is in range, lands on `b`, and nothing before it is `b`.
pub proof fn lemma_idx_of(s: Seq<u8>, b: u8)
    ensures
        idx_of(s, b) <= s.len(),
        idx_of(s, b) < s.len() ==> s[idx_of(s, b) as int] == b,
        forall|j: int| 0 <= j < idx_of(s, b) ==> s[j] != b,
    decreases s.len(),
{
    if s.len() == 0 {
    } else if s[0] == b {
    } else {
        lemma_idx_of(s.drop_first(), b);
        assert forall|j: int| 0 <= j < idx_of(s, b) implies s[j] != b by {
            if j > 0 {
                assert(s.drop_first()[j - 1] == s[j]);
            }
        }
    }
}

/// Any index with the first-occurrence properties is `idx_of`.
pub proof fn lemma_idx_of_unique(s: Seq<u8>, b: u8, i: int)
    requires
        0 <= i <= s.len(),
        forall|j: int| 0 <= j < i ==> s[j] != b,
        i < s.len() ==> s[i] == b,
    ensures
        idx_of(s, b) == i,
{
    lemma_idx_of(s, b);
    if idx_of(s, b) < i {
        assert(s[idx_of(s, b) as int] != b);
    }
    if i < idx_of(s, b) {
        assert(s[i] != b);
    }
}

/// First occurrence of the byte `b` in `s`; `s.len()` where it is absent.
pub fn find_byte(s: &[u8], b: u8) -> (r: usize)
    ensures
        r == idx_of(s@, b),
{
    let n = s.len();
    let mut i: usize = 0;
    while i < n
        invariant
            0 <= i <= n,
            n == s@.len(),
            forall|j: int| 0 <= j < i ==> s@[j] != b,
        decreases n - i,
    {
        if s[i] == b {
            proof {
                lemma_idx_of_unique(s@, b, i as int);
            }
            return i;
        }
        i = i + 1;
    }
    proof {
        lemma_idx_of_unique(s@, b, n as int);
    }
    n
}

/// ASCII whitespace, as `u8::is_ascii_whitespace` defines it.
pub open spec fn is_ascii_space(b: u8) -> bool {
    b == 32 || b == 9 || b == 10 || b == 12 || b == 13
}

/// `s` with ASCII whitespace removed from both ends.
pub open spec fn trim_spec(s: Seq<u8>) -> Seq<u8>
    decreases s.len(),
{
    if s.len() == 0 {
        s
    } else if is_ascii_space(s[0]) {
        trim_spec(s.subrange(1, s.len() as int))
    } else if is_ascii_space(s[s.len() - 1]) {
        trim_spec(s.subrange(0, s.len() - 1))
    } else {
        s
    }
}

/// Trim ASCII whitespace from both ends of `s`.
pub fn trim_bytes(s: &[u8]) -> (r: Vec<u8>)
    ensures
        r@ =~= trim_spec(s@),
{
    let mut lo: usize = 0;
    let mut hi: usize = s.len();
    proof {
        assert(s@.subrange(0, s@.len() as int) =~= s@);
    }
    while lo < hi && is_space_byte(s[lo])
        invariant
            0 <= lo <= hi <= s@.len(),
            trim_spec(s@) == trim_spec(s@.subrange(lo as int, hi as int)),
            hi == s@.len(),
        decreases hi - lo,
    {
        proof {
            assert(s@.subrange(lo as int, hi as int).subrange(1, (hi - lo) as int)
                =~= s@.subrange(lo + 1, hi as int));
        }
        lo = lo + 1;
    }
    while lo < hi && is_space_byte(s[hi - 1])
        invariant
            0 <= lo <= hi <= s@.len(),
            trim_spec(s@) == trim_spec(s@.subrange(lo as int, hi as int)),
            lo < hi ==> !is_ascii_space(s@[lo as int]),
        decreases hi - lo,
    {
        proof {
            assert(s@.subrange(lo as int, hi as int).subrange(0, (hi - lo - 1) as int)
                =~= s@.subrange(lo as int, hi - 1));
        }
        hi = hi - 1;
    }
    proof {
        assert(trim_spec(s@.subrange(lo as int, hi as int)) == s@.subrange(lo as int, hi as int));
    }
    let mut out: Vec<u8> = Vec::new();
    let mut k: usize = lo;
    while k < hi
        invariant
            lo <= k <= hi <= s@.len(),
            out@ =~= s@.subrange(lo as int, k as int),
        decreases hi - k,
    {
        out.push(s[k]);
        assert(out@ =~= s@.subrange(lo as int, k + 1));
        k = k + 1;
    }
    out
}

fn is_space_byte(b: u8) -> (r: bool)
    ensures
        r == is_ascii_space(b),
{
    b == 32 || b == 9 || b == 10 || b == 12 || b == 13
}

/// Byte-wise ASCII lower-casing.
pub open spec fn ascii_lower_byte(b: u8) -> u8 {
    if 65 <= b <= 90 {
        (b + 32) as u8
    } else {
        b
    }
}

/// `s` lower-cased byte by byte, ASCII letters only.
pub open spec fn ascii_lower(s: Seq<u8>) -> Seq<u8> {
    s.map_values(|b: u8| ascii_lower_byte(b))
}

/// Lower-case the ASCII letters of `s`.
pub fn to_ascii_lower(s: &[u8]) -> (r: Vec<u8>)
    ensures
        r@ =~= ascii_lower(s@),
{
    let mut out: Vec<u8> = Vec::new();
    let mut k: usize = 0;
    while k < s.len()
        invariant
            0 <= k <= s@.len(),
            out@ =~= s@.subrange(0, k as int).map_values(|b: u8| ascii_lower_byte(b)),
        decreases s@.len() - k,
    {
        let b = s[k];
        if 65 <= b && b <= 90 {
            out.push(b + 32);
        } else {
            out.push(b);
        }
        assert(s@.subrange(0, k + 1) =~= s@.subrange(0, k as int).push(s@[k as int]));
        assert(out@ =~= s@.subrange(0, k + 1).map_values(|b: u8| ascii_lower_byte(b)));
        k = k + 1;
    }
    assert(s@.subrange(0, s@.len() as int) =~= s@);
    out
}

/// Byte-wise ASCII upper-casing.
pub open spec fn ascii_upper_byte(b: u8) -> u8 {
    if 97 <= b <= 122 {
        (b - 32) as u8
    } else {
        b
    }
}

/// `s` upper-cased byte by byte, ASCII letters only.
pub open spec fn ascii_upper(s: Seq<u8>) -> Seq<u8> {
    s.map_values(|b: u8| ascii_upper_byte(b))
}

/// Upper-case the ASCII letters of `s`.
pub fn to_ascii_upper(s: &[u8]) -> (r: Vec<u8>)
    ensures
        r@ =~= ascii_upper(s@),
{
    let mut out: Vec<u8> = Vec::new();
    let mut k: usize = 0;
    while k < s.len()
        invariant
            0 <= k <= s@.len(),
            out@ =~= s@.subrange(0, k as int).map_values(|b: u8| ascii_upper_byte(b)),
        decreases s@.len() - k,
    {
        let b = s[k];
        if 97 <= b && b <= 122 {
            out.push(b - 32);
        } else {
            out.push(b);
        }
        assert(s@.subrange(0, k + 1) =~= s@.subrange(0, k as int).push(s@[k as int]));
        assert(out@ =~= s@.subrange(0, k + 1).map_values(|b: u8| ascii_upper_byte(b)));
        k = k + 1;
    }
    assert(s@.subrange(0, s@.len() as int) =~= s@);
    out
}

/// Decimal digits of `n`, most significant first.
pub open spec fn dec_digits(n: nat) -> Seq<u8>
    decreases n,
{
    if n < 10 {
        seq![(48 + n) as u8]
    } else {
        dec_digits(n / 10).push((48 + n % 10) as u8)
    }
}

/// Format `n` in decimal.
pub fn u64_to_dec(n: u64) -> (r: Vec<u8>)
    ensures
        r@ =~= dec_digits(n as nat),
    decreases n,
{
    if n < 10 {
        let mut out: Vec<u8> = Vec::new();
        out.push(48 + (n as u8));
        assert(out@ =~= dec_digits(n as nat));
        out
    } else {
        let mut out = u64_to_dec(n / 10);
        out.push(48 + ((n % 10) as u8));
        out
    }
}

} // verus!
