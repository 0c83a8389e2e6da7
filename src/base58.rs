//! Decoding a base58 wallet address into its 32 bytes.
use vstd::prelude::*;
use vstd::string::StringSliceAdditionalSpecFns;

verus! {

/// The value of a base58 digit (alphabet
/// `123456789ABCDEFGHJKLMNPQRSTUVWXYZabcdefghijkmnopqrstuvwxyz`), or -1.
pub open spec fn b58_digit(c: u8) -> int {
    if 49 <= c <= 57 {
        c - 49
    } else if 65 <= c <= 72 {
        c - 56
    } else if 74 <= c <= 78 {
        c - 57
    } else if 80 <= c <= 90 {
        c - 58
    } else if 97 <= c <= 107 {
        c - 64
    } else if 109 <= c <= 122 {
        c - 65
    } else {
        -1
    }
}

/// Every byte is a base58 digit.
pub open spec fn all_b58(s: Seq<u8>) -> bool {
    forall|i: int| 0 <= i < s.len() ==> b58_digit(#[trigger] s[i]) >= 0
}

/// The number the digits spell, most significant first.
pub open spec fn b58_value(s: Seq<u8>) -> nat
    decreases s.len(),
{
    if s.len() == 0 {
        0
    } else {
        b58_value(s.drop_last()) * 58 + b58_digit(s.last()) as nat
    }
}

/// How many `1` digits (zeros) the text starts with.
pub open spec fn leading_ones(s: Seq<u8>) -> nat
    decreases s.len(),
{
    if s.len() > 0 && s[0] == 49 {
        1 + leading_ones(s.drop_first())
    } else {
        0
    }
}

/// 256 to the `n`.
pub open spec fn pow256(n: nat) -> nat
    decreases n,
{
    if n == 0 {
        1
    } else {
        256 * pow256((n - 1) as nat)
    }
}

/// The number that bytes spell, least significant first.
pub open spec fn le_value(s: Seq<u8>) -> nat
    decreases s.len(),
{
    if s.len() == 0 {
        0
    } else {
        s[0] as nat + 256 * le_value(s.drop_first())
    }
}

/// The number that bytes spell, most significant first.
pub open spec fn be_value(s: Seq<u8>) -> nat
    decreases s.len(),
{
    if s.len() == 0 {
        0
    } else {
        be_value(s.drop_last()) * 256 + s.last() as nat
    }
}

/// Written without leading zero bytes, `v` takes exactly `n` bytes.
pub open spec fn takes_bytes(v: nat, n: nat) -> bool {
    if n == 0 {
        v == 0
    } else {
        pow256((n - 1) as nat) <= v < pow256(n)
    }
}

proof fn lemma_pow_positive(n: nat)
    ensures
        pow256(n) >= 1,
    decreases n,
{
    if n > 0 {
        lemma_pow_positive((n - 1) as nat);
    }
}

proof fn lemma_le_push(s: Seq<u8>, b: u8)
    ensures
        le_value(s.push(b)) == le_value(s) + b as nat * pow256(s.len()),
    decreases s.len(),
{
    if s.len() == 0 {
        assert(s.push(b).drop_first() =~= Seq::<u8>::empty());
        assert(le_value(s.push(b)) == b as nat + 256 * le_value(Seq::<u8>::empty()));
        assert(pow256(0) == 1);
    } else {
        assert(s.push(b).drop_first() =~= s.drop_first().push(b));
        lemma_le_push(s.drop_first(), b);
        let t = s.drop_first();
        let p = pow256(t.len());
        assert(s.push(b)[0] == s[0]);
        assert(pow256(s.len()) == 256 * p);
        assert(le_value(s.push(b)) == s[0] as nat + 256 * le_value(t.push(b)));
        assert(256 * (le_value(t) + b as nat * p) == 256 * le_value(t) + b as nat * (256 * p))
            by (nonlinear_arith);
    }
}

proof fn lemma_le_prefix(s: Seq<u8>, j: int)
    requires
        0 <= j < s.len(),
    ensures
        le_value(s.subrange(0, j + 1)) == le_value(s.subrange(0, j)) + s[j] as nat * pow256(
            j as nat,
        ),
{
    assert(s.subrange(0, j + 1) =~= s.subrange(0, j).push(s[j]));
    lemma_le_push(s.subrange(0, j), s[j]);
}

proof fn lemma_le_bound(s: Seq<u8>)
    ensures
        le_value(s) < pow256(s.len()),
    decreases s.len(),
{
    if s.len() > 0 {
        lemma_le_bound(s.drop_first());
        let t = s.drop_first();
        assert(pow256(s.len()) == 256 * pow256(t.len()));
        assert(s[0] as nat + 256 * le_value(t) < 256 * pow256(t.len())) by (nonlinear_arith)
            requires
                s[0] < 256,
                le_value(t) < pow256(t.len()),
        ;
    }
}

fn digit_of(c: u8) -> (r: Option<u32>)
    ensures
        r is Some <==> b58_digit(c) >= 0,
        r is Some ==> r->0 as int == b58_digit(c) && r->0 < 58,
{
    if 49 <= c && c <= 57 {
        Some((c - 49) as u32)
    } else if 65 <= c && c <= 72 {
        Some((c - 56) as u32)
    } else if 74 <= c && c <= 78 {
        Some((c - 57) as u32)
    } else if 80 <= c && c <= 90 {
        Some((c - 58) as u32)
    } else if 97 <= c && c <= 107 {
        Some((c - 64) as u32)
    } else if 109 <= c && c <= 122 {
        Some((c - 65) as u32)
    } else {
        None
    }
}

/// Multiplies the little-endian number in `scratch` by 58 and adds `digit`,
/// growing it by as many bytes as needed and no more.
fn mul58_add(scratch: &mut Vec<u8>, digit: u32)
    requires
        digit < 58,
        old(scratch)@.len() == 0 || old(scratch)@.last() != 0,
    ensures
        le_value(final(scratch)@) == 58 * le_value(old(scratch)@) + digit,
        final(scratch)@.len() == 0 || final(scratch)@.last() != 0,
        final(scratch)@.len() >= old(scratch)@.len(),
{
    let ghost before = scratch@;
    let n = scratch.len();
    let mut carry: u32 = digit;
    let mut j: usize = 0;
    proof {
        assert(pow256(0) == 1);
        assert(scratch@.subrange(0, 0) =~= Seq::<u8>::empty());
        assert(before.subrange(0, 0) =~= Seq::<u8>::empty());
        assert(le_value(Seq::<u8>::empty()) == 0);
    }
    while j < n
        invariant
            n == before.len(),
            scratch@.len() == n,
            j <= n,
            carry < 14848,
            forall|k: int| j <= k < n ==> #[trigger] scratch@[k] == before[k],
            le_value(scratch@.subrange(0, j as int)) + carry * pow256(j as nat) == 58 * le_value(
                before.subrange(0, j as int),
            ) + digit,
        decreases n - j,
    {
        let x = scratch[j];
        let total: u32 = carry + 58 * (x as u32);
        let b = (total % 256) as u8;
        let ghost old_scratch = scratch@;
        scratch.set(j, b);
        proof {
            assert(scratch@.subrange(0, j as int) =~= old_scratch.subrange(0, j as int));
            lemma_le_prefix(scratch@, j as int);
            lemma_le_prefix(before, j as int);
            let p = pow256(j as nat);
            let lo_new = le_value(scratch@.subrange(0, j as int));
            let lo_old = le_value(before.subrange(0, j as int));
            assert(pow256((j + 1) as nat) == 256 * p);
            assert(total == b as nat + 256 * (total / 256));
            assert(lo_new + b as nat * p + (total / 256) * (256 * p) == 58 * (lo_old + x as nat * p)
                + digit) by (nonlinear_arith)
                requires
                    lo_new + carry * p == 58 * lo_old + digit,
                    total == carry + 58 * x,
                    total == b as nat + 256 * (total / 256),
            ;
        }
        carry = total / 256;
        j = j + 1;
    }
    assert(scratch@.subrange(0, n as int) =~= scratch@);
    assert(before.subrange(0, n as int) =~= before);
    let ghost grown_before = scratch@;
    while carry > 0
        invariant
            n == before.len(),
            scratch@.len() >= n,
            scratch@.subrange(0, n as int) == grown_before,
            le_value(scratch@) + carry * pow256(scratch@.len() as nat) == 58 * le_value(before)
                + digit,
            scratch@.len() > n && carry == 0 ==> scratch@.last() != 0,
        decreases carry,
    {
        let b = (carry % 256) as u8;
        let ghost prev = scratch@;
        scratch.push(b);
        proof {
            lemma_le_push(prev, b);
            let p = pow256(prev.len() as nat);
            assert(pow256(scratch@.len() as nat) == 256 * p);
            assert(le_value(prev) + b as nat * p + (carry / 256) as nat * (256 * p) == le_value(prev)
                + carry * p) by (nonlinear_arith)
                requires
                    carry == b as nat + 256 * (carry / 256),
            ;
            assert(scratch@.subrange(0, n as int) =~= prev.subrange(0, n as int));
        }
        carry = carry / 256;
    }
    proof {
        let t = scratch@;
        if t.len() == n && n > 0 && t.last() == 0 {
            assert(t =~= grown_before);
            let p = pow256((n - 1) as nat);
            lemma_le_bound(t.subrange(0, n - 1));
            lemma_le_prefix(t, n - 1);
            lemma_le_prefix(before, n - 1);
            assert(t.subrange(0, n as int) =~= t);
            assert(before.subrange(0, n as int) =~= before);
            assert(before.last() >= 1);
            assert(false) by (nonlinear_arith)
                requires
                    le_value(t) == le_value(t.subrange(0, n - 1)) + 0 * p,
                    le_value(t.subrange(0, n - 1)) < p,
                    le_value(before) == le_value(before.subrange(0, n - 1)) + before.last() as nat
                        * p,
                    before.last() >= 1,
                    le_value(t) == 58 * le_value(before) + digit,
            ;
        }
    }
}

proof fn lemma_pow_monotonic(m: nat, n: nat)
    requires
        m <= n,
    ensures
        pow256(m) <= pow256(n),
    decreases n,
{
    if m < n {
        lemma_pow_monotonic(m, (n - 1) as nat);
        lemma_pow_positive((n - 1) as nat);
    }
}

proof fn lemma_takes_bytes_unique(v: nat, m: nat, n: nat)
    requires
        takes_bytes(v, m),
        takes_bytes(v, n),
    ensures
        m == n,
{
    if m < n {
        lemma_pow_monotonic(m, (n - 1) as nat);
        lemma_pow_positive((n - 1) as nat);
    } else if n < m {
        lemma_pow_monotonic(n, (m - 1) as nat);
        lemma_pow_positive((m - 1) as nat);
    }
}

proof fn lemma_minimal_takes_len(s: Seq<u8>)
    requires
        s.len() == 0 || s.last() != 0,
    ensures
        takes_bytes(le_value(s), s.len()),
{
    lemma_le_bound(s);
    if s.len() > 0 {
        let n = s.len() - 1;
        lemma_le_prefix(s, n);
        assert(s.subrange(0, s.len() as int) =~= s);
        let p = pow256(n as nat);
        assert(le_value(s) >= p) by (nonlinear_arith)
            requires
                le_value(s) == le_value(s.subrange(0, n)) + s.last() as nat * p,
                s.last() >= 1,
        ;
    }
}

/// The number the digits spell, as minimal little-endian bytes; None when a
/// byte is no base58 digit.
fn digits_value(s: &[u8]) -> (r: Option<Vec<u8>>)
    ensures
        r is Some <==> all_b58(s@),
        r is Some ==> le_value(r->0@) == b58_value(s@) && (r->0@.len() == 0 || r->0@.last() != 0),
{
    let mut scratch: Vec<u8> = Vec::new();
    let mut i: usize = 0;
    while i < s.len()
        invariant
            i <= s@.len(),
            all_b58(s@.subrange(0, i as int)),
            le_value(scratch@) == b58_value(s@.subrange(0, i as int)),
            scratch@.len() == 0 || scratch@.last() != 0,
        decreases s@.len() - i,
    {
        let d = match digit_of(s[i]) {
            None => {
                assert(b58_digit(s@[i as int]) < 0);
                return None;
            },
            Some(d) => d,
        };
        mul58_add(&mut scratch, d);
        assert(s@.subrange(0, i + 1).drop_last() =~= s@.subrange(0, i as int));
        i = i + 1;
        assert(all_b58(s@.subrange(0, i as int))) by {
            assert forall|q: int| 0 <= q < i implies b58_digit(#[trigger] s@.subrange(0, i as int)[q])
                >= 0 by {
                if q < i - 1 {
                    assert(s@.subrange(0, i as int)[q] == s@.subrange(0, i - 1)[q]);
                }
            }
        }
    }
    assert(s@.subrange(0, s@.len() as int) =~= s@);
    Some(scratch)
}

/// How many `1` digits the text starts with.
fn count_leading_ones(s: &[u8]) -> (r: usize)
    ensures
        r == leading_ones(s@),
{
    let mut k: usize = 0;
    assert(s@.subrange(0, s@.len() as int) =~= s@);
    while k < s.len() && s[k] == 49
        invariant
            k <= s@.len(),
            leading_ones(s@) == k + leading_ones(s@.subrange(k as int, s@.len() as int)),
        decreases s@.len() - k,
    {
        assert(s@.subrange(k as int, s@.len() as int).drop_first() =~= s@.subrange(
            k + 1,
            s@.len() as int,
        ));
        k = k + 1;
    }
    k
}

/// `k` zero bytes, then the little-endian `bytes` most significant first.
fn zeros_then_reversed(k: usize, bytes: &Vec<u8>) -> (r: Vec<u8>)
    ensures
        r@.len() == k + bytes@.len(),
        be_value(r@) == le_value(bytes@),
{
    let mut out: Vec<u8> = Vec::new();
    let mut z: usize = 0;
    while z < k
        invariant
            z <= k,
            out@.len() == z,
            be_value(out@) == 0,
        decreases k - z,
    {
        let ghost prev = out@;
        out.push(0);
        assert(out@.drop_last() =~= prev);
        z = z + 1;
    }
    let n = bytes.len();
    let mut j: usize = n;
    assert(bytes@.subrange(n as int, n as int) =~= Seq::<u8>::empty());
    while j > 0
        invariant
            j <= n == bytes@.len(),
            out@.len() == k + (n - j),
            be_value(out@) == le_value(bytes@.subrange(j as int, n as int)),
        decreases j,
    {
        let ghost prev = out@;
        out.push(bytes[j - 1]);
        assert(out@.drop_last() =~= prev);
        assert(bytes@.subrange(j - 1, n as int).drop_first() =~= bytes@.subrange(j as int, n as int));
        j = j - 1;
    }
    assert(bytes@.subrange(0, n as int) =~= bytes@);
    out
}

/// The 32 bytes a base58 text spells: its leading `1` digits as zero bytes,
/// then the number it spells, most significant byte first. None when a
/// character is no base58 digit or the bytes do not come to exactly 32.
pub fn bs58_decode(input: &str) -> (r: Option<Vec<u8>>)
    ensures
        r is Some <==> all_b58(input.spec_bytes()) && leading_ones(input.spec_bytes()) <= 32
            && takes_bytes(
            b58_value(input.spec_bytes()),
            (32 - leading_ones(input.spec_bytes())) as nat,
        ),
        r is Some ==> r->0@.len() == 32 && be_value(r->0@) == b58_value(input.spec_bytes()),
{
    let s = input.as_bytes();
    let scratch = match digits_value(s) {
        None => return None,
        Some(v) => v,
    };
    let k = count_leading_ones(s);
    proof {
        lemma_minimal_takes_len(scratch@);
        if k <= 32 && takes_bytes(b58_value(s@), (32 - k) as nat) {
            lemma_takes_bytes_unique(b58_value(s@), scratch@.len() as nat, (32 - k) as nat);
        }
    }
    if k > 32 || scratch.len() != 32 - k {
        return None;
    }
    Some(zeros_then_reversed(k, &scratch))
}

} // verus!
