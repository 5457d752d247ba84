//! Text helpers: comparing strings, and writing and reading integers in
//! decimal and hexadecimal.

use vstd::prelude::*;

verus! {

/// `String::push`: appends one character.
#[verifier::external_body]
pub(crate) fn push_char(s: &mut String, c: char)
    ensures
        final(s)@ == old(s)@.push(c),
{
    s.push(c)
}

/// The characters of `s`, in order.
pub fn chars_of(s: &str) -> (v: Vec<char>)
    ensures
        v@ == s@,
{
    let n = s.unicode_len();
    let mut v: Vec<char> = Vec::new();
    let mut i: usize = 0;
    while i < n
        invariant
            n == s@.len(),
            i <= n,
            v@ == s@.subrange(0, i as int),
        decreases n - i,
    {
        let c = s.get_char(i);
        v.push(c);
        i = i + 1;
        assert(v@ =~= s@.subrange(0, i as int));
    }
    assert(v@ =~= s@);
    v
}

/// Whether `a` and `b` hold the same characters.
pub fn str_equals(a: &str, b: &str) -> (r: bool)
    ensures
        r == (a@ == b@),
{
    let n = a.unicode_len();
    let m = b.unicode_len();
    if n != m {
        return false;
    }
    let mut i: usize = 0;
    while i < n
        invariant
            n == a@.len(),
            n == b@.len(),
            i <= n,
            forall|j: int| 0 <= j < i ==> a@[j] == b@[j],
        decreases n - i,
    {
        if a.get_char(i) != b.get_char(i) {
            return false;
        }
        i = i + 1;
    }
    assert(a@ =~= b@);
    true
}

/// The character of the digit `d` (below 16): `0`-`9`, then `a`-`f`.
pub open spec fn digit_char(d: int) -> char {
    if d < 10 {
        (d + 48) as char
    } else {
        (d - 10 + 97) as char
    }
}

/// `n` in lower-case hexadecimal, without leading zeros (`0` for zero).
pub open spec fn hex_digits(n: nat) -> Seq<char>
    decreases n,
{
    if n < 16 {
        seq![digit_char(n as int)]
    } else {
        hex_digits(n / 16).push(digit_char((n % 16) as int))
    }
}

/// `n` in decimal, without leading zeros (`0` for zero).
pub open spec fn decimal_digits(n: nat) -> Seq<char>
    decreases n,
{
    if n < 10 {
        seq![digit_char(n as int)]
    } else {
        decimal_digits(n / 10).push(digit_char((n % 10) as int))
    }
}

fn digit(d: u64) -> (c: char)
    requires
        d < 16,
    ensures
        c == digit_char(d as int),
{
    let b: u8 = d as u8;
    if b < 10 {
        (b + 48) as char
    } else {
        (b - 10 + 97) as char
    }
}

/// Appends `n` in lower-case hexadecimal.
pub fn push_hex(s: &mut String, n: u64)
    ensures
        final(s)@ == old(s)@ + hex_digits(n as nat),
    decreases n,
{
    if n >= 16 {
        push_hex(s, n / 16);
    }
    push_char(s, digit(n % 16));
    assert(final(s)@ =~= old(s)@ + hex_digits(n as nat));
}

/// Appends `n` in decimal.
pub fn push_decimal(s: &mut String, n: u64)
    ensures
        final(s)@ == old(s)@ + decimal_digits(n as nat),
    decreases n,
{
    if n >= 10 {
        push_decimal(s, n / 10);
    }
    push_char(s, digit(n % 10));
    assert(final(s)@ =~= old(s)@ + decimal_digits(n as nat));
}

/// `n` in decimal, as `n.to_string()` writes it.
pub fn decimal_string(n: u64) -> (s: String)
    ensures
        s@ == decimal_digits(n as nat),
{
    let mut s = String::new();
    push_decimal(&mut s, n);
    assert(s@ =~= decimal_digits(n as nat));
    s
}

/// `n` as `format!("0x{:x}", n)` writes it.
pub fn hex_string_0x(n: u64) -> (s: String)
    ensures
        s@ == "0x"@ + hex_digits(n as nat),
{
    let mut s = String::from_str("0x");
    push_hex(&mut s, n);
    s
}

/// The value of a hexadecimal digit, either case.
pub open spec fn hex_digit_value(c: char) -> Option<nat> {
    if '0' <= c && c <= '9' {
        Some((c as int - 48) as nat)
    } else if 'a' <= c && c <= 'f' {
        Some((c as int - 87) as nat)
    } else if 'A' <= c && c <= 'F' {
        Some((c as int - 55) as nat)
    } else {
        None
    }
}

/// Every character of `s` is a hexadecimal digit.
pub open spec fn all_hex_digits(s: Seq<char>) -> bool {
    forall|i: int| 0 <= i < s.len() ==> (#[trigger] hex_digit_value(s[i])) is Some
}

/// The number that the hexadecimal digits `s` write.
pub open spec fn hex_value(s: Seq<char>) -> nat
    decreases s.len(),
{
    if s.len() == 0 {
        0
    } else {
        hex_value(s.drop_last()) * 16 + hex_digit_value(s.last()).unwrap_or(0)
    }
}

/// `s` with every leading `0x` removed, as `trim_start_matches("0x")` does.
pub open spec fn strip_0x(s: Seq<char>) -> Seq<char>
    decreases s.len(),
{
    if s.len() >= 2 && s[0] == '0' && s[1] == 'x' {
        strip_0x(s.skip(2))
    } else {
        s
    }
}

/// What `u64::from_str_radix(s, 16)` returns when it succeeds: an optional
/// `+`, then at least one hexadecimal digit, and a value that fits in 64 bits.
pub open spec fn parse_hex_u64(s: Seq<char>) -> Option<u64> {
    let body = if s.len() > 0 && s[0] == '+' { s.skip(1) } else { s };
    if body.len() > 0 && all_hex_digits(body) && hex_value(body) <= u64::MAX {
        Some(hex_value(body) as u64)
    } else {
        None
    }
}

/// The value of a hexadecimal text with any leading `0x`; 0 when it is not
/// one.
pub open spec fn hex_text_value(s: Seq<char>) -> u64 {
    match parse_hex_u64(strip_0x(s)) {
        Some(v) => v,
        None => 0,
    }
}

fn hex_digit_exec(c: char) -> (r: Option<u64>)
    ensures
        match hex_digit_value(c) {
            Some(v) => r == Some(v as u64),
            None => r is None,
        },
{
    if '0' <= c && c <= '9' {
        Some((c as u32 - 48) as u64)
    } else if 'a' <= c && c <= 'f' {
        Some((c as u32 - 87) as u64)
    } else if 'A' <= c && c <= 'F' {
        Some((c as u32 - 55) as u64)
    } else {
        None
    }
}

/// The value of the hexadecimal text `hex` after its leading `0x` is removed,
/// or 0 where `u64::from_str_radix` would refuse the rest.
pub fn hex_to_u64(hex: &str) -> (r: u64)
    ensures
        r == hex_text_value(hex@),
{
    let v = chars_of(hex);
    let n = v.len();
    let mut i: usize = 0;
    assert(v@.skip(0) =~= v@);
    while n - i >= 2 && v[i] == '0' && v[i + 1] == 'x'
        invariant
            n == v@.len(),
            i <= n,
            strip_0x(v@) == strip_0x(v@.skip(i as int)),
        decreases n - i,
    {
        assert(v@.skip(i as int).skip(2) =~= v@.skip(i + 2));
        i = i + 2;
    }
    let ghost stripped = v@.skip(i as int);
    assert(stripped.len() >= 2 ==> stripped[0] == v@[i as int] && stripped[1] == v@[i + 1]);
    assert(strip_0x(stripped) == stripped);
    assert(strip_0x(hex@) == stripped);
    let ghost body = if stripped.len() > 0 && stripped[0] == '+' { stripped.skip(1) } else { stripped };
    let mut j: usize = i;
    if j < n && v[j] == '+' {
        assert(stripped[0] == v@[i as int]);
        assert(stripped.skip(1) =~= v@.skip(i + 1));
        j = j + 1;
    } else {
        assert(stripped.len() > 0 ==> stripped[0] == v@[i as int]);
    }
    assert(body =~= v@.skip(j as int));
    if j == n {
        return 0;
    }
    let mut acc: u64 = 0;
    let mut overflow = false;
    let mut k: usize = j;
    while k < n
        invariant
            n == v@.len(),
            j <= k <= n,
            j < n,
            body == v@.skip(j as int),
            strip_0x(hex@) == stripped,
            body == (if stripped.len() > 0 && stripped[0] == '+' { stripped.skip(1) } else { stripped }),
            all_hex_digits(body.take(k - j)),
            overflow ==> hex_value(body.take(k - j)) > u64::MAX,
            !overflow ==> acc == hex_value(body.take(k - j)),
        decreases n - k,
    {
        let d = hex_digit_exec(v[k]);
        let ghost pre = body.take(k - j);
        let ghost next = body.take(k + 1 - j);
        assert(next.drop_last() =~= pre);
        assert(next.last() == v@[k as int]);
        match d {
            None => {
                assert(!all_hex_digits(body)) by {
                    assert(body[k - j] == v@[k as int]);
                }
                return 0;
            },
            Some(dv) => {
                assert(hex_value(next) == hex_value(pre) * 16 + dv);
                if !overflow {
                    if acc > (u64::MAX - dv) / 16 {
                        overflow = true;
                    } else {
                        acc = acc * 16 + dv;
                    }
                }
                assert(all_hex_digits(next)) by {
                    assert forall|t: int| 0 <= t < next.len() implies (#[trigger] hex_digit_value(next[t])) is Some by {
                        if t < pre.len() {
                            assert(next[t] == pre[t]);
                        }
                    }
                }
            },
        }
        k = k + 1;
    }
    assert(body.take(n - j) =~= body);
    if overflow {
        0
    } else {
        acc
    }
}

/// A hexadecimal digit reads back as the value it was written from.
pub proof fn lemma_digit_char_value(d: int)
    requires
        0 <= d < 16,
    ensures
        hex_digit_value(digit_char(d)) == Some(d as nat),
        digit_char(d) != 'x',
        digit_char(d) != '+',
{
}

/// The hexadecimal digits of `n` are digits, at least one, and read back as `n`.
proof fn lemma_hex_digits_read_back(n: nat)
    ensures
        hex_digits(n).len() >= 1,
        all_hex_digits(hex_digits(n)),
        hex_value(hex_digits(n)) == n,
        forall|i: int| 0 <= i < hex_digits(n).len() ==> hex_digits(n)[i] != 'x' && hex_digits(n)[i] != '+',
    decreases n,
{
    if n < 16 {
        lemma_digit_char_value(n as int);
        assert(hex_digits(n).drop_last() =~= Seq::<char>::empty());
        assert(hex_value(Seq::<char>::empty()) == 0);
        assert(hex_value(hex_digits(n)) == 0 * 16 + n);
    } else {
        lemma_hex_digits_read_back(n / 16);
        lemma_digit_char_value((n % 16) as int);
        let d = hex_digits(n);
        assert(d.drop_last() =~= hex_digits(n / 16));
        assert(d.last() == digit_char((n % 16) as int));
        assert((n / 16) * 16 + n % 16 == n);
        assert forall|i: int| 0 <= i < d.len() implies (#[trigger] hex_digit_value(d[i])) is Some by {
            if i < d.len() - 1 {
                assert(d[i] == hex_digits(n / 16)[i]);
            }
        }
    }
}

/// Writing a height as `0x` and hexadecimal digits, as the Polkadot client
/// sends it, and reading that text back with `hex_to_u64` gives the height.
pub proof fn lemma_hex_roundtrip(n: u64)
    ensures
        hex_text_value("0x"@ + hex_digits(n as nat)) == n,
{
    reveal_strlit("0x");
    let d = hex_digits(n as nat);
    lemma_hex_digits_read_back(n as nat);
    let t = "0x"@ + d;
    assert(t.skip(2) =~= d);
    assert(strip_0x(d) == d) by {
        if d.len() >= 2 {
            assert(d[1] != 'x');
        }
    }
    assert(strip_0x(t) == d);
    assert(d[0] != '+');
}

} // verus!
