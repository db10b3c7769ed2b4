//! Text: numbers written out, white space, case.
use vstd::prelude::*;

verus! {

/// [`String::push`]: appends one character.
pub assume_specification[ String::push ](s: &mut String, c: char)
    ensures
        final(s)@ == old(s)@.push(c),
;

/// The decimal digit of a number below ten.
pub open spec fn digit(n: nat) -> char
    recommends
        n < 10,
{
    ('0' as nat + n) as char
}

/// A number written in base ten, without leading zeros.
pub open spec fn decimal(n: nat) -> Seq<char>
    decreases n,
{
    if n < 10 {
        seq![digit(n)]
    } else {
        decimal(n / 10).push(digit(n % 10))
    }
}

/// The upper-case hexadecimal digit of a number below sixteen.
pub open spec fn hex_digit_upper(n: nat) -> char
    recommends
        n < 16,
{
    if n < 10 {
        digit(n)
    } else {
        ('A' as nat + (n - 10)) as char
    }
}

/// A byte written as two upper-case hexadecimal digits behind `0x`.
pub open spec fn hex_byte(b: u8) -> Seq<char> {
    "0x"@ + seq![hex_digit_upper((b / 16) as nat), hex_digit_upper((b % 16) as nat)]
}

/// Appends a number in base ten.
pub fn push_decimal(s: &mut String, n: u64)
    ensures
        final(s)@ == old(s)@ + decimal(n as nat),
{
    push_decimal_wide(s, n as u128);
}

/// Appends a number in base ten.
pub fn push_decimal_wide(s: &mut String, n: u128)
    ensures
        final(s)@ == old(s)@ + decimal(n as nat),
    decreases n,
{
    let ghost start = s@;
    if n >= 10 {
        push_decimal_wide(s, n / 10);
    }
    s.push((48u8 + (n % 10) as u8) as char);
    assert(s@ =~= start + decimal(n as nat));
}

/// Whether two texts are the same.
pub fn same(a: &str, b: &str) -> (r: bool)
    ensures
        r == (a@ == b@),
{
    String::from_str(a) == String::from_str(b)
}

/// The byte as `0x` and two upper-case hexadecimal digits.
pub fn hex_byte_string(b: u8) -> (s: String)
    ensures
        s@ == hex_byte(b),
{
    let mut s = String::from_str("0x");
    let hi: u8 = b / 16;
    let lo: u8 = b % 16;
    s.push(if hi < 10 { (48u8 + hi) as char } else { (55u8 + hi) as char });
    s.push(if lo < 10 { (48u8 + lo) as char } else { (55u8 + lo) as char });
    assert(s@ =~= hex_byte(b));
    s
}

/// Different numbers are written differently.
pub proof fn law_decimal_is_injective(a: nat, b: nat)
    requires
        decimal(a) == decimal(b),
    ensures
        a == b,
    decreases a,
{
    let (da, db) = (decimal(a), decimal(b));
    assert(da.last() == digit(a % 10));
    assert(db.last() == digit(b % 10));
    lemma_decimal_len(a);
    lemma_decimal_len(b);
    if a >= 10 && b >= 10 {
        assert(decimal(a / 10) =~= da.drop_last());
        assert(decimal(b / 10) =~= db.drop_last());
        law_decimal_is_injective(a / 10, b / 10);
    }
}

proof fn lemma_decimal_len(n: nat)
    ensures
        decimal(n).len() >= 1,
        n >= 10 <==> decimal(n).len() >= 2,
    decreases n,
{
    if n >= 10 {
        lemma_decimal_len(n / 10);
    }
}

// ── White space ─────────────────────────────────────────────────────

/// Whether a character is white space: one with the Unicode property `White_Space`.
pub open spec fn is_white_space(c: char) -> bool {
    let n = c as u32;
    ||| 0x9 <= n <= 0xD
    ||| n == 0x20
    ||| n == 0x85
    ||| n == 0xA0
    ||| n == 0x1680
    ||| 0x2000 <= n <= 0x200A
    ||| n == 0x2028
    ||| n == 0x2029
    ||| n == 0x202F
    ||| n == 0x205F
    ||| n == 0x3000
}

/// A text without the white space at its start.
pub open spec fn trimmed_start(s: Seq<char>) -> Seq<char>
    decreases s.len(),
{
    if s.len() > 0 && is_white_space(s[0]) {
        trimmed_start(s.skip(1))
    } else {
        s
    }
}

/// A text without the white space at its end.
pub open spec fn trimmed_end(s: Seq<char>) -> Seq<char>
    decreases s.len(),
{
    if s.len() > 0 && is_white_space(s.last()) {
        trimmed_end(s.drop_last())
    } else {
        s
    }
}

/// A text without the white space around it.
pub open spec fn trimmed(s: Seq<char>) -> Seq<char> {
    trimmed_end(trimmed_start(s))
}

fn white_space(c: char) -> (r: bool)
    ensures
        r == is_white_space(c),
{
    let n: u32 = c as u32;
    (0x9 <= n && n <= 0xD) || n == 0x20 || n == 0x85 || n == 0xA0 || n == 0x1680 || (0x2000 <= n
        && n <= 0x200A) || n == 0x2028 || n == 0x2029 || n == 0x202F || n == 0x205F || n == 0x3000
}

/// The text without the white space around it.
pub fn trim(s: &str) -> (r: String)
    ensures
        r@ == trimmed(s@),
{
    let len: usize = s.unicode_len();
    let mut from: usize = 0;
    assert(s@.skip(0) =~= s@);
    while from < len
        invariant
            from <= len == s@.len(),
            trimmed_start(s@) == trimmed_start(s@.skip(from as int)),
        ensures
            trimmed_start(s@) == s@.skip(from as int),
        decreases len - from,
    {
        if !white_space(s.get_char(from)) {
            break;
        }
        assert(s@.skip(from as int).skip(1) =~= s@.skip(from + 1));
        from = from + 1;
    }
    let ghost start = s@.skip(from as int);
    let mut to: usize = len;
    assert(s@.subrange(from as int, to as int) =~= start);
    while to > from
        invariant
            from <= to <= len == s@.len(),
            start == s@.skip(from as int),
            trimmed_end(start) == trimmed_end(s@.subrange(from as int, to as int)),
        ensures
            trimmed_end(start) == s@.subrange(from as int, to as int),
        decreases to,
    {
        if !white_space(s.get_char(to - 1)) {
            break;
        }
        assert(s@.subrange(from as int, to as int).drop_last() =~= s@.subrange(
            from as int,
            to - 1,
        ));
        to = to - 1;
    }
    String::from_str(s.substring_char(from, to))
}

// ── Numbers read back ───────────────────────────────────────────────

/// Whether a character is a decimal digit.
pub open spec fn is_digit(c: char) -> bool {
    '0' <= c && c <= '9'
}

/// The number that decimal digits stand for.
pub open spec fn digits_value(s: Seq<char>) -> nat
    decreases s.len(),
{
    if s.len() == 0 {
        0
    } else {
        digits_value(s.drop_last()) * 10 + (s.last() as nat - '0' as nat) as nat
    }
}

/// The 16-bit number that digits stand for: decimal digits, at least one, and nothing else.
pub open spec fn digits_u16(digits: Seq<char>) -> Option<u16> {
    if digits.len() > 0 && (forall|i: int| 0 <= i < digits.len() ==> is_digit(#[trigger] digits[i]))
        && digits_value(digits) <= u16::MAX {
        Some(digits_value(digits) as u16)
    } else {
        None
    }
}

/// The 16-bit number that a text stands for: digits, behind an optional plus sign.
pub open spec fn u16_of(s: Seq<char>) -> Option<u16> {
    digits_u16(
        if s.len() > 0 && s[0] == '+' {
            s.skip(1)
        } else {
            s
        },
    )
}

proof fn lemma_digits_value_grows(s: Seq<char>, n: int)
    requires
        0 <= n <= s.len(),
        forall|i: int| 0 <= i < s.len() ==> is_digit(#[trigger] s[i]),
    ensures
        digits_value(s.take(n)) <= digits_value(s),
    decreases s.len() - n,
{
    if n < s.len() {
        lemma_digits_value_grows(s, n + 1);
        assert(s.take(n + 1).drop_last() =~= s.take(n));
    } else {
        assert(s.take(n) =~= s);
    }
}

/// The 16-bit number that a text stands for, if any.
pub fn parse_u16(s: &str) -> (r: Option<u16>)
    ensures
        r == u16_of(s@),
{
    let len: usize = s.unicode_len();
    let from: usize = if len > 0 && s.get_char(0) == '+' { 1 } else { 0 };
    let ghost digits = s@.skip(from as int);
    assert(s@.skip(0) =~= s@);
    if from == len {
        return None;
    }
    let mut value: u32 = 0;
    let mut i: usize = from;
    assert(digits.take(0) =~= Seq::empty());
    while i < len
        invariant
            from <= i <= len == s@.len(),
            digits == s@.skip(from as int),
            u16_of(s@) == digits_u16(digits),
            forall|j: int| 0 <= j < i - from ==> is_digit(#[trigger] digits[j]),
            value == digits_value(digits.take(i - from)),
            value <= u16::MAX,
        decreases len - i,
    {
        let c = s.get_char(i);
        assert(c == digits[i - from]);
        if c < '0' || c > '9' {
            return None;
        }
        assert(digits.take(i - from + 1).drop_last() =~= digits.take(i - from));
        value = value * 10 + (c as u32 - 48);
        if value > u16::MAX as u32 {
            proof {
                if forall|j: int| 0 <= j < digits.len() ==> is_digit(#[trigger] digits[j]) {
                    lemma_digits_value_grows(digits, i - from + 1);
                }
            }
            return None;
        }
        i = i + 1;
    }
    assert(digits.take(len - from) =~= digits);
    Some(value as u16)
}

proof fn lemma_decimal_is_digits(n: nat)
    ensures
        decimal(n).len() > 0,
        forall|i: int| 0 <= i < decimal(n).len() ==> is_digit(#[trigger] decimal(n)[i]),
        digits_value(decimal(n)) == n,
    decreases n,
{
    if n >= 10 {
        lemma_decimal_is_digits(n / 10);
        assert(decimal(n).drop_last() =~= decimal(n / 10));
    } else {
        assert(decimal(n).drop_last() =~= Seq::empty());
        assert(digits_value(Seq::<char>::empty()) == 0);
    }
}

/// A 16-bit number that was written out is read back.
pub proof fn law_written_number_is_read_back(n: u16)
    ensures
        u16_of(decimal(n as nat)) == Some(n),
{
    lemma_decimal_is_digits(n as nat);
}

/// Trimming leaves no white space at either end, and trimming twice is trimming once.
pub proof fn law_trimming_is_thorough(s: Seq<char>)
    ensures
        trimmed(s).len() > 0 ==> !is_white_space(trimmed(s)[0]) && !is_white_space(
            trimmed(s).last(),
        ),
        trimmed(trimmed(s)) == trimmed(s),
{
    let t = trimmed_start(s);
    lemma_trimmed_start(s);
    lemma_trimmed_end(t);
}

proof fn lemma_trimmed_start(s: Seq<char>)
    ensures
        trimmed_start(s).len() > 0 ==> !is_white_space(trimmed_start(s)[0]),
    decreases s.len(),
{
    if s.len() > 0 && is_white_space(s[0]) {
        lemma_trimmed_start(s.skip(1));
    }
}

proof fn lemma_trimmed_end(s: Seq<char>)
    ensures
        trimmed_end(s).len() > 0 ==> !is_white_space(trimmed_end(s).last()) && trimmed_end(s)[0]
            == s[0],
    decreases s.len(),
{
    if s.len() > 0 && is_white_space(s.last()) {
        lemma_trimmed_end(s.drop_last());
    }
}

// ── Case ────────────────────────────────────────────────────────────

/// A text in lower case, as Unicode maps it.
pub uninterp spec fn lowercase_of(s: Seq<char>) -> Seq<char>;

/// `str::to_lowercase`: the text in lower case. The mapping is that of Unicode, and is not
/// spelt out.
#[verifier::external_body]
pub(crate) fn to_lowercase(s: &str) -> (r: String)
    ensures
        r@ == lowercase_of(s@),
{
    s.to_lowercase()
}

// ── What the texts are ──────────────────────────────────────────────

/// A number is written digit by digit: below ten it is its digit, and putting another digit
/// behind it is multiplying by ten and adding.
pub proof fn law_decimal_grows_by_digits(n: nat, d: nat)
    requires
        d < 10,
    ensures
        decimal(d) == seq![('0' as nat + d) as char],
        n > 0 ==> decimal(n * 10 + d) == decimal(n).push(('0' as nat + d) as char),
{
    let m = n * 10 + d;
    assert(m / 10 == n && m % 10 == d);
}

/// A byte is written as `0x` and two digits, the more significant one first, which together
/// are the byte.
pub proof fn law_hex_byte_is_the_byte(b: u8)
    ensures
        ({
            let value = |c: char|
                if c <= '9' {
                    c as int - '0' as int
                } else {
                    c as int - 'A' as int + 10
                };
            let s = hex_byte(b);
            &&& s.len() == 4 && s[0] == '0' && s[1] == 'x'
            &&& ('0' <= s[2] && s[2] <= '9') || ('A' <= s[2] && s[2] <= 'F')
            &&& ('0' <= s[3] && s[3] <= '9') || ('A' <= s[3] && s[3] <= 'F')
            &&& 16 * value(s[2]) + value(s[3]) == b
        }),
{
    reveal_strlit("0x");
}

/// Trimming takes away white space at the two ends and nothing else: what is left is a stretch
/// of the text, and all around it is white space.
pub proof fn law_trimming_takes_only_white_space(s: Seq<char>)
    ensures
        exists|from: int, to: int|
            0 <= from <= to <= s.len() && trimmed(s) == #[trigger] s.subrange(from, to) && (forall|
                i: int,
            |
                0 <= i < s.len() && !(from <= i < to) ==> is_white_space(#[trigger] s[i])),
{
    let t = trimmed_start(s);
    lemma_start_is_suffix(s);
    lemma_end_is_prefix(t);
    let from = s.len() - t.len();
    let to = from + trimmed_end(t).len();
    assert(s.subrange(from, to) =~= trimmed_end(t));
    assert forall|i: int| 0 <= i < s.len() && !(from <= i < to) implies is_white_space(
        #[trigger] s[i],
    ) by {
        if i >= to {
            assert(t[i - from] == s[i]);
        }
    }
}

proof fn lemma_start_is_suffix(s: Seq<char>)
    ensures
        trimmed_start(s).len() <= s.len(),
        trimmed_start(s) == s.skip(s.len() - trimmed_start(s).len()),
        forall|i: int|
            0 <= i < s.len() - trimmed_start(s).len() ==> is_white_space(#[trigger] s[i]),
    decreases s.len(),
{
    if s.len() > 0 && is_white_space(s[0]) {
        let rest = s.skip(1);
        lemma_start_is_suffix(rest);
        assert(trimmed_start(s) =~= s.skip(s.len() - trimmed_start(s).len()));
        assert forall|i: int| 0 <= i < s.len() - trimmed_start(s).len() implies is_white_space(
            #[trigger] s[i],
        ) by {
            if i > 0 {
                assert(rest[i - 1] == s[i]);
            }
        }
    } else {
        assert(s.skip(0) =~= s);
    }
}

proof fn lemma_end_is_prefix(s: Seq<char>)
    ensures
        trimmed_end(s).len() <= s.len(),
        trimmed_end(s) == s.take(trimmed_end(s).len() as int),
        forall|i: int| trimmed_end(s).len() <= i < s.len() ==> is_white_space(#[trigger] s[i]),
    decreases s.len(),
{
    if s.len() > 0 && is_white_space(s.last()) {
        let rest = s.drop_last();
        lemma_end_is_prefix(rest);
        assert(trimmed_end(s) =~= s.take(trimmed_end(s).len() as int));
        assert forall|i: int| trimmed_end(s).len() <= i < s.len() implies is_white_space(
            #[trigger] s[i],
        ) by {
            if i < rest.len() {
                assert(rest[i] == s[i]);
            }
        }
    } else {
        assert(s.take(s.len() as int) =~= s);
    }
}

/// Blanks, tabs and line breaks are white space; what can be seen of the ASCII characters is
/// not.
pub proof fn law_visible_characters_are_no_white_space(c: char)
    ensures
        c == ' ' || c == '\t' || c == '\n' || c == '\r' ==> is_white_space(c),
        '!' <= c && c <= '~' ==> !is_white_space(c),
{
}

/// A text is read as a number exactly if it is digits behind an optional plus sign and the
/// number fits: leading zeros and the sign make no difference, and a number that is too large
/// or anything else is refused.
pub proof fn law_numbers_are_read_exactly(s: Seq<char>, n: nat, i: int)
    ensures
        u16_of(decimal(n)) == if n <= 65535 {
            Some(n as u16)
        } else {
            None
        },
        u16_of(Seq::empty()) is None,
        s.len() > 0 && s[0] != '+' ==> {
            &&& u16_of(seq!['0'] + s) == u16_of(s)
            &&& u16_of(seq!['+'] + s) == u16_of(s)
        },
        0 < i < s.len() && !('0' <= s[i] && s[i] <= '9') ==> u16_of(s) is None,
        s.len() > 0 && s[0] != '+' && !('0' <= s[0] && s[0] <= '9') ==> u16_of(s) is None,
{
    lemma_decimal_is_digits(n);
    assert(is_digit(decimal(n)[0]));
    if s.len() > 0 && s[0] != '+' {
        let signed = seq!['+'] + s;
        assert(signed.skip(1) =~= s);
        let padded = seq!['0'] + s;
        lemma_leading_zero(s);
        assert(padded[0] == '0');
        if forall|j: int| 0 <= j < s.len() ==> is_digit(#[trigger] s[j]) {
            assert forall|j: int| 0 <= j < padded.len() implies is_digit(#[trigger] padded[j]) by {
                if j > 0 {
                    assert(padded[j] == s[j - 1]);
                }
            }
        } else {
            let j = choose|j: int| 0 <= j < s.len() && !is_digit(#[trigger] s[j]);
            assert(padded[j + 1] == s[j]);
        }
        if !is_digit(s[0]) {
            assert(u16_of(s) is None);
        }
    }
    if 0 < i < s.len() && !is_digit(s[i]) {
        if s[0] == '+' {
            assert(s.skip(1)[i - 1] == s[i]);
        }
    }
}

proof fn lemma_leading_zero(s: Seq<char>)
    ensures
        digits_value(seq!['0'] + s) == digits_value(s),
    decreases s.len(),
{
    let padded = seq!['0'] + s;
    if s.len() == 0 {
        assert(padded.drop_last() =~= Seq::empty());
        assert(digits_value(padded.drop_last()) == 0);
        assert(padded.last() == '0');
    } else {
        assert(padded.drop_last() =~= seq!['0'] + s.drop_last());
        lemma_leading_zero(s.drop_last());
        assert(padded.last() == s.last());
    }
}

} // verus!
