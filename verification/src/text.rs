use vstd::prelude::*;
use vstd::string::StringExecFns;

verus! {

/// The UTF-16 code units of one Unicode scalar value.
pub open spec fn utf16_char(c: char) -> Seq<u16> {
    let v = c as int;
    if v < 0x10000 {
        seq![v as u16]
    } else {
        let w = v - 0x10000;
        seq![(0xD800 + w / 0x400) as u16, (0xDC00 + w % 0x400) as u16]
    }
}

/// The UTF-16 encoding of a string.
pub open spec fn utf16(s: Seq<char>) -> Seq<u16>
    decreases s.len(),
{
    if s.len() == 0 {
        Seq::empty()
    } else {
        utf16(s.drop_last()) + utf16_char(s.last())
    }
}

/// Appends the UTF-16 code units of `c` to `out`.
fn push_utf16(out: &mut Vec<u16>, c: char)
    ensures
        final(out)@ == old(out)@ + utf16_char(c),
{
    let v: u32 = c as u32;
    if v < 0x10000 {
        out.push(v as u16);
    } else {
        let w: u32 = v - 0x10000;
        out.push((0xD800 + w / 0x400) as u16);
        out.push((0xDC00 + w % 0x400) as u16);
    }
}

/// The UTF-16 encoding of `s`.
pub fn encode_utf16(s: &str) -> (units: Vec<u16>)
    ensures
        units@ == utf16(s@),
{
    let mut units: Vec<u16> = Vec::new();
    for c in it: s.chars()
        invariant
            it.seq() == s@,
            units@ == utf16(it.seq().take(it.index() as int)),
    {
        proof {
            assert(it.seq().take(it.index() + 1).drop_last() == it.seq().take(it.index() as int));
        }
        push_utf16(&mut units, c);
    }
    assert(s@.take(s@.len() as int) == s@);
    units
}

/// A zero-terminated UTF-16 string, as the wide-character platform calls take it.
pub open spec fn wide_spec(s: Seq<char>) -> Seq<u16> {
    utf16(s).push(0)
}

/// Encodes `value` as UTF-16 followed by a terminating zero.
pub fn wide(value: &str) -> (units: Vec<u16>)
    ensures
        units@ == wide_spec(value@),
{
    let mut units = encode_utf16(value);
    units.push(0);
    units
}

/// The ASCII digit for `d`, where `d < 10`.
pub open spec fn digit_char(d: nat) -> char {
    if d == 0 { '0' } else if d == 1 { '1' } else if d == 2 { '2' } else if d == 3 { '3' }
    else if d == 4 { '4' } else if d == 5 { '5' } else if d == 6 { '6' } else if d == 7 { '7' }
    else if d == 8 { '8' } else { '9' }
}

/// The decimal representation of `n`, without leading zeros.
pub open spec fn decimal(n: nat) -> Seq<char>
    decreases n,
{
    if n < 10 {
        seq![digit_char(n)]
    } else {
        decimal(n / 10).push(digit_char(n % 10))
    }
}

/// `std::string::String::push`: appends `c` to the end of `s`.
#[verifier::external_body]
fn push_char(s: &mut String, c: char)
    ensures
        final(s)@ == old(s)@.push(c),
{
    s.push(c);
}

fn digit(d: u8) -> (c: char)
    requires
        d < 10,
    ensures
        c == digit_char(d as nat),
{
    match d {
        0 => '0',
        1 => '1',
        2 => '2',
        3 => '3',
        4 => '4',
        5 => '5',
        6 => '6',
        7 => '7',
        8 => '8',
        _ => '9',
    }
}

/// Appends the decimal representation of `value` to `s`.
pub fn push_decimal(s: &mut String, value: u8)
    ensures
        final(s)@ == old(s)@ + decimal(value as nat),
{
    let ghost n = value as nat;
    if value >= 100 {
        push_char(s, digit(value / 100));
        push_char(s, digit((value / 10) % 10));
        push_char(s, digit(value % 10));
        proof {
            let t = n / 10;
            assert(t / 10 == n / 100);
            assert(decimal(n / 100) == seq![digit_char(n / 100)]);
            assert(decimal(t) == decimal(t / 10).push(digit_char(t % 10)));
            assert(decimal(n) == decimal(t).push(digit_char(n % 10)));
        }
    } else if value >= 10 {
        push_char(s, digit(value / 10));
        push_char(s, digit(value % 10));
        proof {
            assert(decimal(n / 10) == seq![digit_char(n / 10)]);
            assert(decimal(n) == decimal(n / 10).push(digit_char(n % 10)));
        }
    } else {
        push_char(s, digit(value));
    }
}

/// The decimal representation of `value`, as `u8::to_string` gives it.
pub fn decimal_string(value: u8) -> (s: String)
    ensures
        s@ == decimal(value as nat),
{
    let mut s = String::new();
    push_decimal(&mut s, value);
    s
}

/// The tooltip shown while the monitor is idle.
pub open spec fn idle_tooltip() -> Seq<char> {
    seq!['C', 'P', 'U']
}

/// The tooltip for a load of `value` percent: `CPU: {value}%`.
pub open spec fn load_tooltip(value: nat) -> Seq<char> {
    seq!['C', 'P', 'U', ':', ' '] + decimal(value) + seq!['%']
}

/// The text `CPU`.
pub fn idle_tooltip_text() -> (s: String)
    ensures
        s@ == idle_tooltip(),
{
    let s = String::from_str("CPU");
    proof {
        reveal_strlit("CPU");
    }
    s
}

/// The text `CPU: {value}%`.
pub fn load_tooltip_text(value: u8) -> (s: String)
    ensures
        s@ == load_tooltip(value as nat),
{
    let mut s = String::from_str("CPU: ");
    proof {
        reveal_strlit("CPU: ");
    }
    push_decimal(&mut s, value);
    push_char(&mut s, '%');
    s
}

/// One digit below 10, two below 100, three below 1000.
pub proof fn lemma_decimal_len(n: nat)
    requires
        n < 1000,
    ensures
        decimal(n).len() == if n < 10 { 1nat } else if n < 100 { 2nat } else { 3nat },
    decreases n,
{
    if n >= 10 {
        lemma_decimal_len(n / 10);
    }
}

/// A scalar value below 0x10000 is one code unit equal to it; any other is
/// a high surrogate (0xD800..0xDC00) followed by a low surrogate
/// (0xDC00..0xE000) from which it is recovered as
/// `(high - 0xD800) * 0x400 + (low - 0xDC00) + 0x10000`.
pub proof fn lemma_utf16_char_decodes(c: char)
    ensures
        (c as int) < 0x10000 ==> utf16_char(c).len() == 1 && utf16_char(c)[0] as int == c as int,
        (c as int) >= 0x10000 ==> {
            let u = utf16_char(c);
            &&& u.len() == 2
            &&& 0xD800 <= u[0] < 0xDC00
            &&& 0xDC00 <= u[1] < 0xE000
            &&& (u[0] - 0xD800) * 0x400 + (u[1] - 0xDC00) + 0x10000 == c as int
        },
{
    let v = c as int;
    assert(v <= 0x10FFFF);
    if v >= 0x10000 {
        let w = v - 0x10000;
        assert(w / 0x400 < 0x400);
        assert(w == (w / 0x400) * 0x400 + w % 0x400);
    }
}

/// Encoding a concatenation concatenates the encodings.
pub proof fn lemma_utf16_concat(a: Seq<char>, b: Seq<char>)
    ensures
        utf16(a + b) == utf16(a) + utf16(b),
    decreases b.len(),
{
    if b.len() == 0 {
        assert(a + b =~= a);
        assert(utf16(a) + utf16(b) =~= utf16(a));
    } else {
        lemma_utf16_concat(a, b.drop_last());
        assert((a + b).drop_last() =~= a + b.drop_last());
        assert((a + b).last() == b.last());
        assert(utf16(a) + utf16(b) =~= utf16(a) + utf16(b.drop_last()) + utf16_char(b.last()));
    }
}

/// The encoding of a single character is that character's code units.
pub proof fn lemma_utf16_single(c: char)
    ensures
        utf16(seq![c]) == utf16_char(c),
{
    let s = seq![c];
    assert(s.drop_last() =~= Seq::<char>::empty());
    assert(s.last() == c);
    assert(utf16(s.drop_last()) == Seq::<u16>::empty());
    assert(utf16(s) == utf16(s.drop_last()) + utf16_char(s.last()));
    assert(Seq::<u16>::empty() + utf16_char(c) =~= utf16_char(c));
}

/// A wide string is the UTF-16 encoding followed by exactly one zero.
pub proof fn lemma_wide_terminated(s: Seq<char>)
    ensures
        wide_spec(s).len() == utf16(s).len() + 1,
        wide_spec(s).last() == 0u16,
        wide_spec(s).drop_last() == utf16(s),
{
    assert(wide_spec(s).drop_last() =~= utf16(s));
}

/// The ASCII digit for `d < 10` is the character `'0' + d`.
pub proof fn lemma_digit_char_code(d: nat)
    requires
        d < 10,
    ensures
        digit_char(d) as int == 48 + d,
{
}

/// The decimal text of a byte: its digits, most significant first, with no
/// leading zero, each the character `'0'` plus the digit.
pub proof fn lemma_decimal_digits(v: u8)
    ensures
        v < 10 ==> decimal(v as nat).len() == 1 && decimal(v as nat)[0] as int == 48 + v,
        10 <= v < 100 ==> {
            &&& decimal(v as nat).len() == 2
            &&& decimal(v as nat)[0] as int == 48 + v / 10
            &&& decimal(v as nat)[1] as int == 48 + v % 10
        },
        100 <= v ==> {
            &&& decimal(v as nat).len() == 3
            &&& decimal(v as nat)[0] as int == 48 + v / 100
            &&& decimal(v as nat)[1] as int == 48 + (v / 10) % 10
            &&& decimal(v as nat)[2] as int == 48 + v % 10
        },
        decimal(v as nat)[0] != '0' || v == 0,
{
    let n = v as nat;
    if n >= 100 {
        let t = n / 10;
        assert(t / 10 == n / 100);
        assert(decimal(t / 10) == seq![digit_char(t / 10)]);
        assert(decimal(t) == decimal(t / 10).push(digit_char(t % 10)));
        assert(decimal(n) == decimal(t).push(digit_char(n % 10)));
        lemma_digit_char_code(n / 100);
        lemma_digit_char_code(t % 10);
        lemma_digit_char_code(n % 10);
    } else if n >= 10 {
        assert(decimal(n / 10) == seq![digit_char(n / 10)]);
        assert(decimal(n) == decimal(n / 10).push(digit_char(n % 10)));
        lemma_digit_char_code(n / 10);
        lemma_digit_char_code(n % 10);
    } else {
        lemma_digit_char_code(n);
    }
}

} // verus!
