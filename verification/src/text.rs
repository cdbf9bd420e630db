use vstd::prelude::*;

verus! {

/// ASCII code of the lower-case hexadecimal digit for `n` (`0..=15`).
pub open spec fn hex_digit(n: int) -> u8 {
    if n < 10 {
        (48 + n) as u8
    } else {
        (87 + n) as u8
    }
}

/// Value of an ASCII hexadecimal digit (lower case), the inverse of `hex_digit`.
pub open spec fn hex_value(c: u8) -> int {
    if c <= 57 {
        c - 48
    } else {
        c - 87
    }
}

/// `b` written as two lower-case hexadecimal digits (`{:02x}`).
pub open spec fn hex2(b: u8) -> Seq<u8> {
    seq![hex_digit(b as int / 16), hex_digit(b as int % 16)]
}

/// `b` written in lower-case hexadecimal without padding (`{:x}`).
pub open spec fn hex_min(b: u8) -> Seq<u8> {
    if b < 16 {
        seq![hex_digit(b as int)]
    } else {
        hex2(b)
    }
}

/// `n` written in decimal without leading zeros (`{}`).
pub open spec fn decimal(n: nat) -> Seq<u8>
    decreases n,
{
    if n < 10 {
        seq![(48 + n) as u8]
    } else {
        decimal(n / 10).push((48 + n % 10) as u8)
    }
}

/// Value of a sequence of ASCII decimal digits, most significant first.
pub open spec fn decimal_value(s: Seq<u8>) -> int
    decreases s.len(),
{
    if s.len() == 0 {
        0
    } else {
        decimal_value(s.drop_last()) * 10 + (s.last() - 48)
    }
}

fn hex_digit_exec(n: u8) -> (c: u8)
    requires
        n < 16,
    ensures
        c == hex_digit(n as int),
{
    if n < 10 {
        48 + n
    } else {
        87 + n
    }
}

/// Appends `b` as two lower-case hexadecimal digits.
pub fn push_hex2(line: &mut Vec<u8>, b: u8)
    ensures
        final(line)@ == old(line)@ + hex2(b),
{
    line.push(hex_digit_exec(b / 16));
    line.push(hex_digit_exec(b % 16));
}

/// Appends `b` in lower-case hexadecimal without padding.
pub fn push_hex(line: &mut Vec<u8>, b: u8)
    ensures
        final(line)@ == old(line)@ + hex_min(b),
{
    if b < 16 {
        line.push(hex_digit_exec(b));
    } else {
        push_hex2(line, b);
    }
}

/// Appends `n` in decimal without leading zeros.
pub fn push_decimal(line: &mut Vec<u8>, n: u32)
    ensures
        final(line)@ == old(line)@ + decimal(n as nat),
    decreases n,
{
    if n >= 10 {
        push_decimal(line, n / 10);
    }
    line.push(48 + (n % 10) as u8);
    proof {
        assert(final(line)@ =~= old(line)@ + decimal(n as nat));
    }
}

/// Appends every byte of `s`.
pub fn push_all(line: &mut Vec<u8>, s: &[u8])
    ensures
        final(line)@ == old(line)@ + s@,
{
    let mut i: usize = 0;
    while i < s.len()
        invariant
            i <= s@.len(),
            line@ == old(line)@ + s@.subrange(0, i as int),
        decreases s@.len() - i,
    {
        line.push(s[i]);
        i = i + 1;
        assert(line@ =~= old(line)@ + s@.subrange(0, i as int));
    }
    assert(s@.subrange(0, s@.len() as int) =~= s@);
}

/// Reading the two digits of `hex2(b)` back gives `b`: the padded form loses
/// nothing.
pub proof fn lemma_hex2_round_trip(b: u8)
    ensures
        hex2(b).len() == 2,
        hex_value(hex2(b)[0]) * 16 + hex_value(hex2(b)[1]) == b,
{
}

/// Reading the digits of `decimal(n)` back gives `n`, and no digit is
/// outside `'0'..='9'`.
pub proof fn lemma_decimal_round_trip(n: nat)
    ensures
        decimal_value(decimal(n)) == n,
        forall|i: int| 0 <= i < decimal(n).len() ==> 48 <= #[trigger] decimal(n)[i] <= 57,
    decreases n,
{
    if n >= 10 {
        lemma_decimal_round_trip(n / 10);
        assert(decimal(n).drop_last() =~= decimal(n / 10));
        assert((n / 10) * 10 + n % 10 == n) by (nonlinear_arith);
        let d = decimal(n);
        assert(d.last() == (48 + n % 10) as u8);
        assert(decimal_value(d) == decimal_value(d.drop_last()) * 10 + (d.last() - 48));
    } else {
        let d = decimal(n);
        assert(d.drop_last() =~= Seq::<u8>::empty());
        assert(decimal_value(d) == decimal_value(d.drop_last()) * 10 + (d.last() - 48));
    }
}

} // verus!
