use vstd::prelude::*;

verus! {

/// The digits of base sixteen, in lower case; the first ten are also those of base ten.
pub open spec fn digit_chars() -> Seq<char> {
    seq!['0', '1', '2', '3', '4', '5', '6', '7', '8', '9', 'a', 'b', 'c', 'd', 'e', 'f']
}

/// The decimal form of `n`, as `to_string` writes it: no sign, no leading zeros.
pub open spec fn decimal_text(n: nat) -> Seq<char>
    decreases n,
{
    if n < 10 {
        seq![digit_chars()[n as int]]
    } else {
        decimal_text(n / 10).push(digit_chars()[(n % 10) as int])
    }
}

/// The lower-case hexadecimal form of `n`, as `format!("{:x}")` writes it: no prefix, no
/// leading zeros.
pub open spec fn hex_text(n: nat) -> Seq<char>
    decreases n,
{
    if n < 16 {
        seq![digit_chars()[n as int]]
    } else {
        hex_text(n / 16).push(digit_chars()[(n % 16) as int])
    }
}

/// `text` with zeros put before it until it is `width` characters long, as `format!` pads a
/// number for the flag `0` and a width.
pub open spec fn zero_padded(text: Seq<char>, width: nat) -> Seq<char> {
    if text.len() < width {
        Seq::new((width - text.len()) as nat, |i: int| '0') + text
    } else {
        text
    }
}

/// The one-character string of a digit.
fn digit_str(d: u64) -> (s: &'static str)
    requires
        d < 16,
    ensures
        s@ == seq![digit_chars()[d as int]],
{
    let s = match d {
        0 => "0",
        1 => "1",
        2 => "2",
        3 => "3",
        4 => "4",
        5 => "5",
        6 => "6",
        7 => "7",
        8 => "8",
        9 => "9",
        10 => "a",
        11 => "b",
        12 => "c",
        13 => "d",
        14 => "e",
        _ => "f",
    };
    proof {
        reveal_strlit("0");
        reveal_strlit("1");
        reveal_strlit("2");
        reveal_strlit("3");
        reveal_strlit("4");
        reveal_strlit("5");
        reveal_strlit("6");
        reveal_strlit("7");
        reveal_strlit("8");
        reveal_strlit("9");
        reveal_strlit("a");
        reveal_strlit("b");
        reveal_strlit("c");
        reveal_strlit("d");
        reveal_strlit("e");
        reveal_strlit("f");
        assert(s@ =~= seq![digit_chars()[d as int]]);
    }
    s
}

/// Appends the decimal form of `n` to `out`.
fn push_decimal(out: &mut String, n: u64)
    ensures
        final(out)@ == old(out)@ + decimal_text(n as nat),
    decreases n,
{
    if n >= 10 {
        push_decimal(out, n / 10);
    }
    out.append(digit_str(n % 10));
    proof {
        if n >= 10 {
            assert(decimal_text(n as nat) == decimal_text((n / 10) as nat).push(
                digit_chars()[(n % 10) as int],
            ));
        }
    }
}

/// Appends the lower-case hexadecimal form of `n` to `out`.
fn push_hex(out: &mut String, n: u64)
    ensures
        final(out)@ == old(out)@ + hex_text(n as nat),
    decreases n,
{
    if n >= 16 {
        push_hex(out, n / 16);
    }
    out.append(digit_str(n % 16));
    proof {
        if n >= 16 {
            assert(hex_text(n as nat) == hex_text((n / 16) as nat).push(
                digit_chars()[(n % 16) as int],
            ));
        }
    }
}

/// The decimal form of `n`, as `n.to_string()` gives it.
pub fn decimal_string(n: u64) -> (text: String)
    ensures
        text@ == decimal_text(n as nat),
{
    let mut text = String::new();
    push_decimal(&mut text, n);
    proof {
        assert(text@ =~= decimal_text(n as nat));
    }
    text
}

/// The number of digits of the hexadecimal form of a number below 0x10000.
proof fn lemma_hex_length(n: nat)
    requires
        n < 0x10000,
    ensures
        n < 0x10 ==> hex_text(n).len() == 1,
        0x10 <= n < 0x100 ==> hex_text(n).len() == 2,
        0x100 <= n < 0x1000 ==> hex_text(n).len() == 3,
        0x1000 <= n ==> hex_text(n).len() == 4,
{
    reveal_with_fuel(hex_text, 5);
}

/// The lower-case hexadecimal form of `n`, padded with zeros to at least four digits, as
/// `format!("{:04x}", n)` gives it.
pub fn hex_string_4(n: u32) -> (text: String)
    ensures
        text@ == zero_padded(hex_text(n as nat), 4),
{
    let mut text = String::new();
    proof {
        reveal_strlit("0");
        reveal_strlit("00");
        reveal_strlit("000");
        if n < 0x10000 {
            lemma_hex_length(n as nat);
        } else {
            assert(hex_text(n as nat).len() >= 4) by {
                lemma_hex_at_least_four(n as nat);
            }
        }
    }
    if n < 0x10 {
        text.append("000");
    } else if n < 0x100 {
        text.append("00");
    } else if n < 0x1000 {
        text.append("0");
    }
    push_hex(&mut text, n as u64);
    proof {
        assert(text@ =~= zero_padded(hex_text(n as nat), 4));
    }
    text
}

/// The hexadecimal form of a number of at least 0x1000 has at least four digits.
proof fn lemma_hex_at_least_four(n: nat)
    requires
        n >= 0x1000,
    ensures
        hex_text(n).len() >= 4,
    decreases n,
{
    if n >= 0x10000 {
        lemma_hex_at_least_four(n / 16);
    } else {
        lemma_hex_length(n);
    }
}


/// The value of the digit `c`: 0 to 9 for '0' to '9', 10 to 15 for 'a' to 'f'.
pub open spec fn digit_value(c: char) -> int {
    if '0' <= c && c <= '9' {
        c as int - '0' as int
    } else {
        c as int - 'a' as int + 10
    }
}

/// Whether `c` is a digit of base `base` (10 or 16), written in lower case.
pub open spec fn is_digit_of(c: char, base: int) -> bool {
    ('0' <= c && c <= '9' && (c as int - '0' as int) < base) || (base == 16 && 'a' <= c && c <= 'f')
}

/// The number that the digits `digits` write in base `base`.
pub open spec fn digits_value(digits: Seq<char>, base: int) -> int
    decreases digits.len(),
{
    if digits.len() == 0 {
        0
    } else {
        digits_value(digits.drop_last(), base) * base + digit_value(digits.last())
    }
}

proof fn lemma_digit_chars(d: int, base: int)
    requires
        0 <= d < base,
        base == 10 || base == 16,
    ensures
        digit_value(digit_chars()[d]) == d,
        is_digit_of(digit_chars()[d], base),
{
    assert(digit_chars()[d] == seq![
        '0', '1', '2', '3', '4', '5', '6', '7', '8', '9', 'a', 'b', 'c', 'd', 'e', 'f',
    ][d]);
}

/// The decimal form of a number is made of decimal digits, starts with '0' only for zero, and
/// reads back as the number.
pub proof fn lemma_decimal_text_reads_back(n: nat)
    ensures
        digits_value(decimal_text(n), 10) == n,
        decimal_text(n).len() >= 1,
        forall|i: int| 0 <= i < decimal_text(n).len() ==> is_digit_of(#[trigger] decimal_text(n)[i], 10),
        n > 0 ==> decimal_text(n)[0] != '0',
    decreases n,
{
    if n < 10 {
        lemma_digit_chars(n as int, 10);
        let t = decimal_text(n);
        assert(t.drop_last() =~= Seq::<char>::empty());
        assert(digits_value(t.drop_last(), 10) == 0);
        assert(t.last() == digit_chars()[n as int]);
    } else {
        lemma_decimal_text_reads_back(n / 10);
        lemma_digit_chars((n % 10) as int, 10);
        let t = decimal_text(n);
        assert(t.drop_last() =~= decimal_text(n / 10));
        assert(t.last() == digit_chars()[(n % 10) as int]);
        assert(digits_value(t, 10) == digits_value(t.drop_last(), 10) * 10 + digit_value(t.last()));
        assert forall|i: int| 0 <= i < t.len() implies is_digit_of(#[trigger] t[i], 10) by {
            if i < t.len() - 1 {
                assert(t[i] == decimal_text(n / 10)[i]);
            }
        }
        assert(t[0] == decimal_text(n / 10)[0]);
    }
}

/// The hexadecimal form of a number is made of lower-case hexadecimal digits, starts with '0'
/// only for zero, and reads back as the number.
pub proof fn lemma_hex_text_reads_back(n: nat)
    ensures
        digits_value(hex_text(n), 16) == n,
        hex_text(n).len() >= 1,
        forall|i: int| 0 <= i < hex_text(n).len() ==> is_digit_of(#[trigger] hex_text(n)[i], 16),
        n > 0 ==> hex_text(n)[0] != '0',
    decreases n,
{
    if n < 16 {
        lemma_digit_chars(n as int, 16);
        let t = hex_text(n);
        assert(t.drop_last() =~= Seq::<char>::empty());
        assert(digits_value(t.drop_last(), 16) == 0);
        assert(t.last() == digit_chars()[n as int]);
    } else {
        lemma_hex_text_reads_back(n / 16);
        lemma_digit_chars((n % 16) as int, 16);
        let t = hex_text(n);
        assert(t.drop_last() =~= hex_text(n / 16));
        assert(t.last() == digit_chars()[(n % 16) as int]);
        assert(digits_value(t, 16) == digits_value(t.drop_last(), 16) * 16 + digit_value(t.last()));
        assert forall|i: int| 0 <= i < t.len() implies is_digit_of(#[trigger] t[i], 16) by {
            if i < t.len() - 1 {
                assert(t[i] == hex_text(n / 16)[i]);
            }
        }
        assert(t[0] == hex_text(n / 16)[0]);
    }
}

/// A zero put before digits does not change the number they write.
proof fn lemma_leading_zero(digits: Seq<char>, base: int)
    ensures
        digits_value(seq!['0'] + digits, base) == digits_value(digits, base),
    decreases digits.len(),
{
    let with_zero = seq!['0'] + digits;
    if digits.len() == 0 {
        assert(with_zero.drop_last() =~= Seq::<char>::empty());
        assert(digits_value(with_zero.drop_last(), base) == 0);
        assert(0 * base == 0) by (nonlinear_arith);
        assert(with_zero.last() == '0');
        assert(digit_value('0') == 0);
    } else {
        lemma_leading_zero(digits.drop_last(), base);
        assert(with_zero.drop_last() =~= seq!['0'] + digits.drop_last());
        assert(with_zero.last() == digits.last());
    }
}

/// Zeros put before digits do not change the number they write.
proof fn lemma_leading_zeros(count: nat, digits: Seq<char>, base: int)
    ensures
        digits_value(Seq::new(count, |i: int| '0') + digits, base) == digits_value(digits, base),
    decreases count,
{
    if count > 0 {
        let rest = Seq::new((count - 1) as nat, |i: int| '0') + digits;
        lemma_leading_zeros((count - 1) as nat, digits, base);
        lemma_leading_zero(rest, base);
        assert(Seq::new(count, |i: int| '0') + digits =~= seq!['0'] + rest);
    }
}

/// The `{:04x}` form of a number has at least four lower-case hexadecimal digits and reads back
/// as the number.
pub proof fn lemma_hex_4_reads_back(n: nat)
    ensures
        digits_value(zero_padded(hex_text(n), 4), 16) == n,
        zero_padded(hex_text(n), 4).len() >= 4,
        forall|i: int|
            0 <= i < zero_padded(hex_text(n), 4).len() ==> is_digit_of(
                #[trigger] zero_padded(hex_text(n), 4)[i],
                16,
            ),
{
    lemma_hex_text_reads_back(n);
    let t = hex_text(n);
    if t.len() < 4 {
        let k = (4 - t.len()) as nat;
        lemma_leading_zeros(k, t, 16);
        let p = zero_padded(t, 4);
        assert forall|i: int| 0 <= i < p.len() implies is_digit_of(#[trigger] p[i], 16) by {
            if i >= k {
                assert(p[i] == t[i - k]);
            }
        }
    }
}

/// Whether `c` is white space, as `char::is_whitespace` decides: whether it has the Unicode
/// White_Space property.
pub open spec fn is_white_space(c: char) -> bool {
    let v = c as u32;
    ||| 0x09 <= v <= 0x0D
    ||| v == 0x20
    ||| v == 0x85
    ||| v == 0xA0
    ||| v == 0x1680
    ||| 0x2000 <= v <= 0x200A
    ||| v == 0x2028
    ||| v == 0x2029
    ||| v == 0x202F
    ||| v == 0x205F
    ||| v == 0x3000
}

/// Whether `c` is white space.
pub fn white_space(c: char) -> (b: bool)
    ensures
        b == is_white_space(c),
{
    let v = c as u32;
    (0x09 <= v && v <= 0x0D) || v == 0x20 || v == 0x85 || v == 0xA0 || v == 0x1680 || (0x2000 <= v
        && v <= 0x200A) || v == 0x2028 || v == 0x2029 || v == 0x202F || v == 0x205F || v == 0x3000
}

/// Whether `text[start..end]` is what is left of `text` with its leading and trailing white
/// space removed: everything outside it is white space, and, unless it is empty, it starts and
/// ends with a character that is not.
pub open spec fn trim_bounds(text: Seq<char>, start: int, end: int) -> bool {
    &&& 0 <= start <= end <= text.len()
    &&& forall|i: int| 0 <= i < start ==> is_white_space(#[trigger] text[i])
    &&& forall|i: int| end <= i < text.len() ==> is_white_space(#[trigger] text[i])
    &&& start < end ==> !is_white_space(text[start]) && !is_white_space(text[end - 1])
}

/// `text` with its leading and trailing white space removed, as `str::trim` gives it.
pub open spec fn trimmed(text: Seq<char>) -> Seq<char> {
    if forall|i: int| 0 <= i < text.len() ==> is_white_space(#[trigger] text[i]) {
        Seq::empty()
    } else {
        let (start, end) = choose|start: int, end: int| trim_bounds(text, start, end);
        text.subrange(start, end)
    }
}

/// Where the text is not all white space, its bounds after trimming are its first and last
/// characters that are not.
proof fn lemma_trim_bounds_unique(text: Seq<char>, start: int, end: int, start2: int, end2: int)
    requires
        trim_bounds(text, start, end),
        trim_bounds(text, start2, end2),
        start < end,
    ensures
        start == start2 && end == end2,
{
    if start2 == end2 {
        if start2 <= start {
            assert(is_white_space(text[start]));
        } else {
            assert(is_white_space(text[start]));
        }
    } else {
        if start2 < start {
            assert(is_white_space(text[start2]));
        }
        if start < start2 {
            assert(is_white_space(text[start]));
        }
        if end2 < end {
            assert(is_white_space(text[end - 1]));
        }
        if end < end2 {
            assert(is_white_space(text[end2 - 1]));
        }
    }
}

/// `text` with its leading and trailing white space removed, as `str::trim` gives it.
pub fn trim_white_space(text: &str) -> (trimmed_text: &str)
    ensures
        trimmed_text@ == trimmed(text@),
        exists|start: int, end: int|
            trim_bounds(text@, start, end) && trimmed_text@ == text@.subrange(start, end),
{
    let len = text.unicode_len();
    let mut start: usize = 0;
    while start < len && white_space(text.get_char(start))
        invariant
            len == text@.len(),
            start <= len,
            forall|i: int| 0 <= i < start ==> is_white_space(#[trigger] text@[i]),
        decreases len - start,
    {
        start = start + 1;
    }
    if start == len {
        let empty = text.substring_char(0, 0);
        proof {
            assert(trim_bounds(text@, 0, 0));
            assert(empty@ =~= Seq::<char>::empty());
        }
        return empty;
    }
    let mut end: usize = len;
    while end > start && white_space(text.get_char(end - 1))
        invariant
            len == text@.len(),
            start < len,
            start < end <= len,
            !is_white_space(text@[start as int]),
            forall|i: int| end <= i < len ==> is_white_space(#[trigger] text@[i]),
        decreases end,
    {
        end = end - 1;
    }
    let result = text.substring_char(start, end);
    proof {
        assert(trim_bounds(text@, start as int, end as int));
        assert(!is_white_space(text@[start as int]));
        let (s2, e2) = choose|s2: int, e2: int| trim_bounds(text@, s2, e2);
        lemma_trim_bounds_unique(text@, start as int, end as int, s2, e2);
    }
    result
}

} // verus!
