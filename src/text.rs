//! Text as sequences of characters: hexadecimal and decimal numbers.
use vstd::prelude::*;

verus! {

pub open spec fn hex_digits() -> Seq<char> {
    seq!['0', '1', '2', '3', '4', '5', '6', '7', '8', '9', 'A', 'B', 'C', 'D', 'E', 'F']
}

/// The uppercase hexadecimal digit of `n` (below 16).
pub open spec fn hex_digit(n: u8) -> char {
    hex_digits()[n as int]
}

/// Two uppercase hexadecimal digits.
pub open spec fn hex2(v: u8) -> Seq<char> {
    seq![hex_digit(v >> 4u8), hex_digit(v & 0x0F)]
}

/// Four uppercase hexadecimal digits.
pub open spec fn hex4(v: u16) -> Seq<char> {
    hex2((v >> 8u16) as u8) + hex2(v as u8)
}

/// The decimal digits of `n`, without leading zeros.
pub open spec fn decimal(n: nat) -> Seq<char>
    decreases n,
{
    if n < 10 {
        seq![hex_digit(n as u8)]
    } else {
        decimal(n / 10).push(hex_digit((n % 10) as u8))
    }
}

/// `n` spaces.
pub open spec fn spaces(n: nat) -> Seq<char> {
    Seq::new(n, |i: int| ' ')
}

/// `s` padded with spaces on the right to at least `width` characters.
pub open spec fn pad_right(s: Seq<char>, width: nat) -> Seq<char> {
    if s.len() < width {
        s + spaces((width - s.len()) as nat)
    } else {
        s
    }
}

pub proof fn lemma_nibbles(v: u8)
    by (bit_vector)
    ensures
        v >> 4u8 < 16,
        v & 0x0F < 16,
{
}

fn digit_char(n: u8) -> (c: char)
    requires
        n < 16,
    ensures
        c == hex_digit(n),
{
    match n {
        0 => '0',
        1 => '1',
        2 => '2',
        3 => '3',
        4 => '4',
        5 => '5',
        6 => '6',
        7 => '7',
        8 => '8',
        9 => '9',
        10 => 'A',
        11 => 'B',
        12 => 'C',
        13 => 'D',
        14 => 'E',
        _ => 'F',
    }
}

pub fn push_chars(out: &mut Vec<char>, s: &[char])
    ensures
        final(out)@ == old(out)@ + s@,
{
    let n = s.len();
    let mut i: usize = 0;
    while i < n
        invariant
            n == s@.len(),
            i <= n,
            out@ == old(out)@ + s@.subrange(0, i as int),
        decreases n - i,
    {
        out.push(s[i]);
        i = i + 1;
        assert(out@ =~= old(out)@ + s@.subrange(0, i as int));
    }
    assert(s@.subrange(0, n as int) =~= s@);
}

pub fn push_hex2(out: &mut Vec<char>, v: u8)
    ensures
        final(out)@ == old(out)@ + hex2(v),
{
    proof {
        lemma_nibbles(v);
    }
    out.push(digit_char(v >> 4u8));
    out.push(digit_char(v & 0x0F));
    assert(out@ =~= old(out)@ + hex2(v));
}

pub fn push_hex4(out: &mut Vec<char>, v: u16)
    ensures
        final(out)@ == old(out)@ + hex4(v),
{
    push_hex2(out, (v >> 8u16) as u8);
    push_hex2(out, v as u8);
    assert(out@ =~= old(out)@ + hex4(v));
}

pub fn push_decimal(out: &mut Vec<char>, n: u64)
    ensures
        final(out)@ == old(out)@ + decimal(n as nat),
    decreases n,
{
    if n < 10 {
        out.push(digit_char(n as u8));
        assert(out@ =~= old(out)@ + decimal(n as nat));
    } else {
        push_decimal(out, n / 10);
        out.push(digit_char((n % 10) as u8));
        assert(out@ =~= old(out)@ + decimal(n as nat));
    }
}

pub fn push_padding(out: &mut Vec<char>, start: usize, width: usize)
    requires
        start <= old(out)@.len(),
    ensures
        final(out)@ == old(out)@.subrange(0, start as int) + pad_right(
            old(out)@.subrange(start as int, old(out)@.len() as int),
            width as nat,
        ),
{
    let ghost s = out@.subrange(start as int, out@.len() as int);
    assert(old(out)@ =~= old(out)@.subrange(0, start as int) + s);
    let len = out.len() - start;
    if len < width {
        let k = width - len;
        let mut i: usize = 0;
        while i < k
            invariant
                i <= k,
                out@ == old(out)@ + spaces(i as nat),
            decreases k - i,
        {
            out.push(' ');
            i = i + 1;
            assert(out@ =~= old(out)@ + spaces(i as nat));
        }
        assert(out@ =~= old(out)@.subrange(0, start as int) + (s + spaces(k as nat)));
    }
}

/// Relies on `String: FromIterator<char>`: the string holds the characters in order.
#[verifier::external_body]
pub(crate) fn chars_to_string(chars: Vec<char>) -> (r: String)
    ensures
        r@ == chars@,
{
    String::from_iter(chars)
}

} // verus!
