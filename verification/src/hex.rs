//! `0x`-prefixed hexadecimal quantities, as they travel in the mining
//! protocol's JSON arrays (block heights, reported hash rates).
use vstd::prelude::*;

verus! {

/// Whether `c` is a hexadecimal digit (either case).
pub open spec fn is_hex_digit(c: char) -> bool {
    ('0' <= c && c <= '9') || ('a' <= c && c <= 'f') || ('A' <= c && c <= 'F')
}

/// The value of a hexadecimal digit.
pub open spec fn digit_value(c: char) -> nat {
    if '0' <= c && c <= '9' {
        (c as int - '0' as int) as nat
    } else if 'a' <= c && c <= 'f' {
        (c as int - 'a' as int + 10) as nat
    } else {
        (c as int - 'A' as int + 10) as nat
    }
}

/// Every character of `s` is a hexadecimal digit.
pub open spec fn all_hex(s: Seq<char>) -> bool {
    forall|i: int| 0 <= i < s.len() ==> is_hex_digit(#[trigger] s[i])
}

/// The number that the digits of `s` denote, most significant first.
pub open spec fn hex_value(s: Seq<char>) -> nat
    decreases s.len(),
{
    if s.len() == 0 {
        0
    } else {
        hex_value(s.drop_last()) * 16 + digit_value(s.last())
    }
}

/// The text `0x` followed by at least one hexadecimal digit.
pub open spec fn is_prefixed_hex(s: Seq<char>) -> bool {
    &&& s.len() > 2
    &&& s[0] == '0'
    &&& s[1] == 'x'
    &&& all_hex(s.skip(2))
}

/// The quantity that `s` denotes: the value of its digits after `0x` when `s`
/// is such a quantity and the value fits in 64 bits, and 0 otherwise.
pub open spec fn prefixed_hex_value(s: Seq<char>) -> u64 {
    if is_prefixed_hex(s) && hex_value(s.skip(2)) <= u64::MAX {
        hex_value(s.skip(2)) as u64
    } else {
        0
    }
}

/// The lower-case digit for a value below 16.
pub open spec fn hex_char(d: nat) -> char {
    if d < 10 {
        (('0' as nat) + d) as char
    } else {
        (('a' as nat) + d - 10) as char
    }
}

/// The shortest lower-case hexadecimal digits of `n` (`0` for zero).
pub open spec fn hex_digits(n: nat) -> Seq<char>
    decreases n,
{
    if n < 16 {
        seq![hex_char(n)]
    } else {
        hex_digits(n / 16).push(hex_char(n % 16))
    }
}

proof fn lemma_hex_value_prefix_le(s: Seq<char>, i: int)
    requires
        0 <= i <= s.len(),
    ensures
        hex_value(s.take(i)) <= hex_value(s),
    decreases s.len() - i,
{
    if i < s.len() {
        lemma_hex_value_prefix_le(s, i + 1);
        assert(s.take(i + 1).drop_last() =~= s.take(i));
    } else {
        assert(s.take(i) =~= s);
    }
}

proof fn lemma_hex_char_is_digit(d: nat)
    requires
        d < 16,
    ensures
        is_hex_digit(hex_char(d)),
        digit_value(hex_char(d)) == d,
{
}

/// The digits of `n` are hexadecimal digits, and they denote `n`.
pub proof fn lemma_hex_digits_value(n: nat)
    ensures
        hex_digits(n).len() > 0,
        all_hex(hex_digits(n)),
        hex_value(hex_digits(n)) == n,
    decreases n,
{
    if n < 16 {
        lemma_hex_char_is_digit(n);
        let s = hex_digits(n);
        assert(s.drop_last() =~= Seq::<char>::empty());
        assert(hex_value(s.drop_last()) == 0);
        assert(s.last() == hex_char(n));
    } else {
        lemma_hex_digits_value(n / 16);
        lemma_hex_char_is_digit(n % 16);
        let s = hex_digits(n);
        assert(s.drop_last() =~= hex_digits(n / 16));
        assert(s.last() == hex_char(n % 16));
        assert(hex_value(s) == hex_value(hex_digits(n / 16)) * 16 + digit_value(hex_char(n % 16)));
        assert(n == (n / 16) * 16 + n % 16) by (nonlinear_arith);
    }
}

/// Reading back what [`format_prefixed_hex`] writes gives the number written.
pub proof fn lemma_hex_round_trip(n: u64)
    ensures
        prefixed_hex_value(seq!['0', 'x'] + hex_digits(n as nat)) == n,
{
    lemma_hex_digits_value(n as nat);
    let s = seq!['0', 'x'] + hex_digits(n as nat);
    assert(s.skip(2) =~= hex_digits(n as nat));
}

/// `k` zero digits.
pub open spec fn zeros(k: nat) -> Seq<char> {
    Seq::new(k, |i: int| '0')
}

proof fn lemma_zeros_value(k: nat)
    ensures
        hex_value(zeros(k)) == 0,
        all_hex(zeros(k)),
    decreases k,
{
    if k > 0 {
        lemma_zeros_value((k - 1) as nat);
        assert(zeros(k).drop_last() =~= zeros((k - 1) as nat));
    } else {
        assert(zeros(k) =~= Seq::<char>::empty());
    }
}

proof fn lemma_leading_zeros(k: nat, s: Seq<char>)
    ensures
        hex_value(zeros(k) + s) == hex_value(s),
        all_hex(s) ==> all_hex(zeros(k) + s),
    decreases s.len(),
{
    lemma_zeros_value(k);
    if s.len() == 0 {
        assert(zeros(k) + s =~= zeros(k));
    } else {
        lemma_leading_zeros(k, s.drop_last());
        assert((zeros(k) + s).drop_last() =~= zeros(k) + s.drop_last());
        assert((zeros(k) + s).last() == s.last());
    }
    if all_hex(s) {
        assert forall|i: int| 0 <= i < (zeros(k) + s).len() implies is_hex_digit(
            #[trigger] (zeros(k) + s)[i],
        ) by {
            if i < k {
                assert((zeros(k) + s)[i] == '0');
            } else {
                assert((zeros(k) + s)[i] == s[i - k]);
            }
        }
    }
}

/// Leading zeros do not change a quantity: `0x`, any number of zeros and the
/// digits of `n` read as `n`.
pub proof fn law_leading_zeros_keep_quantity(k: nat, n: u64)
    ensures
        prefixed_hex_value(seq!['0', 'x'] + zeros(k) + hex_digits(n as nat)) == n,
{
    lemma_hex_digits_value(n as nat);
    lemma_leading_zeros(k, hex_digits(n as nat));
    let s = seq!['0', 'x'] + zeros(k) + hex_digits(n as nat);
    assert(s.skip(2) =~= zeros(k) + hex_digits(n as nat));
}

fn hex_char_value(c: char) -> (r: Option<u64>)
    ensures
        r matches Some(d) ==> is_hex_digit(c) && d == digit_value(c),
        r is None ==> !is_hex_digit(c),
{
    if '0' <= c && c <= '9' {
        Some((c as u32 - '0' as u32) as u64)
    } else if 'a' <= c && c <= 'f' {
        Some((c as u32 - 'a' as u32 + 10) as u64)
    } else if 'A' <= c && c <= 'F' {
        Some((c as u32 - 'A' as u32 + 10) as u64)
    } else {
        None
    }
}

/// The characters of `s`, in order.
pub fn chars_of(s: &str) -> (v: Vec<char>)
    ensures
        v@ == s@,
{
    broadcast use vstd::string::group_string_axioms;

    let mut v: Vec<char> = Vec::new();
    for c in it: s.chars()
        invariant
            v@ == it.seq().take(it.index() as int),
            it.seq() == s@,
    {
        v.push(c);
    }
    v
}

/// Reads a `0x`-prefixed hexadecimal quantity; 0 when `s` is not one or
/// its value does not fit in 64 bits.
pub fn parse_prefixed_hex(s: &str) -> (r: u64)
    ensures
        r == prefixed_hex_value(s@),
{
    let v = chars_of(s);
    let n = v.len();
    if n <= 2 || v[0] != '0' || v[1] != 'x' {
        return 0;
    }
    let ghost t = v@.skip(2);
    let mut acc: u64 = 0;
    let mut i: usize = 2;
    while i < n
        invariant
            2 <= i <= n,
            n == v@.len(),
            t == v@.skip(2),
            v@ == s@,
            n > 2,
            v@[0] == '0',
            v@[1] == 'x',
            all_hex(t.take(i - 2)),
            acc as nat == hex_value(t.take(i - 2)),
        decreases n - i,
    {
        let c = v[i];
        let d = match hex_char_value(c) {
            Some(d) => d,
            None => {
                assert(t[i - 2] == c);
                assert(!all_hex(t));
                return 0;
            },
        };
        assert(t.take(i - 1).drop_last() =~= t.take(i - 2));
        assert(t.take(i - 1).last() == c);
        assert(all_hex(t.take(i - 1))) by {
            assert forall|k: int| 0 <= k < t.take(i - 1).len() implies is_hex_digit(
                #[trigger] t.take(i - 1)[k],
            ) by {
                if k < i - 2 {
                    assert(t.take(i - 1)[k] == t.take(i - 2)[k]);
                }
            }
        }
        if acc > (u64::MAX - d) / 16 {
            assert(acc * 16 + d > u64::MAX) by (nonlinear_arith)
                requires
                    acc > (u64::MAX - d) / 16,
                    d <= u64::MAX,
            ;
            proof {
                if all_hex(t) {
                    lemma_hex_value_prefix_le(t, i - 1);
                }
            }
            return 0;
        }
        assert(acc * 16 + d <= u64::MAX) by (nonlinear_arith)
            requires
                acc <= (u64::MAX - d) / 16,
                d <= u64::MAX,
        ;
        acc = acc * 16 + d;
        i = i + 1;
    }
    assert(t.take(n - 2) =~= t);
    acc
}

fn digit_str(d: u64) -> (s: &'static str)
    requires
        d < 16,
    ensures
        s@ == seq![hex_char(d as nat)],
{
    match d {
        0 => {
            proof { reveal_strlit("0"); }
            "0"
        },
        1 => {
            proof { reveal_strlit("1"); }
            "1"
        },
        2 => {
            proof { reveal_strlit("2"); }
            "2"
        },
        3 => {
            proof { reveal_strlit("3"); }
            "3"
        },
        4 => {
            proof { reveal_strlit("4"); }
            "4"
        },
        5 => {
            proof { reveal_strlit("5"); }
            "5"
        },
        6 => {
            proof { reveal_strlit("6"); }
            "6"
        },
        7 => {
            proof { reveal_strlit("7"); }
            "7"
        },
        8 => {
            proof { reveal_strlit("8"); }
            "8"
        },
        9 => {
            proof { reveal_strlit("9"); }
            "9"
        },
        10 => {
            proof { reveal_strlit("a"); }
            "a"
        },
        11 => {
            proof { reveal_strlit("b"); }
            "b"
        },
        12 => {
            proof { reveal_strlit("c"); }
            "c"
        },
        13 => {
            proof { reveal_strlit("d"); }
            "d"
        },
        14 => {
            proof { reveal_strlit("e"); }
            "e"
        },
        _ => {
            proof { reveal_strlit("f"); }
            "f"
        },
    }
}

/// Writes `n` as `0x` and its shortest lower-case hexadecimal digits.
pub fn format_prefixed_hex(n: u64) -> (r: String)
    ensures
        r@ == seq!['0', 'x'] + hex_digits(n as nat),
{
    // The digits, least significant first.
    let mut rev: Vec<u64> = Vec::new();
    let mut m: u64 = n;
    let ghost mut k: nat = 0;
    while m >= 16
        invariant
            rev@.len() == k,
            forall|j: int| 0 <= j < rev@.len() ==> #[trigger] rev@[j] < 16,
            hex_digits(n as nat) =~= hex_digits(m as nat) + Seq::new(
                k,
                |j: int| hex_char(rev@[k - 1 - j] as nat),
            ),
        decreases m,
    {
        let d = m % 16;
        let ghost old_rev = rev@;
        let ghost old_m = m;
        rev.push(d);
        m = m / 16;
        proof {
            assert(hex_digits(old_m as nat) == hex_digits(m as nat).push(hex_char(d as nat)));
            k = k + 1;
            assert(hex_digits(n as nat) =~= hex_digits(m as nat) + Seq::new(
                k,
                |j: int| hex_char(rev@[k - 1 - j] as nat),
            ));
        }
    }
    let ghost tail = Seq::new(k, |j: int| hex_char(rev@[k - 1 - j] as nat));
    let mut out = String::new();
    proof { reveal_strlit("0x"); }
    out.append("0x");
    out.append(digit_str(m));
    assert(out@ =~= seq!['0', 'x'] + hex_digits(m as nat));
    let mut j: usize = rev.len();
    while j > 0
        invariant
            j <= rev@.len(),
            rev@.len() == k,
            forall|q: int| 0 <= q < rev@.len() ==> #[trigger] rev@[q] < 16,
            tail == Seq::new(k, |q: int| hex_char(rev@[k - 1 - q] as nat)),
            out@ =~= seq!['0', 'x'] + hex_digits(m as nat) + tail.take(k - j),
        decreases j,
    {
        j = j - 1;
        out.append(digit_str(rev[j]));
        assert(tail.take(k - j) =~= tail.take(k - j - 1).push(hex_char(rev@[j as int] as nat)));
    }
    assert(tail.take(k as int) =~= tail);
    out
}

} // verus!
