//! Byte counts for people to read.
use crate::text;
use vstd::prelude::*;

verus! {

/// The bytes in a kibibyte.
pub const KIB: u64 = 1024;

/// The bytes in a mebibyte.
pub const MIB: u64 = 1_048_576;

/// The bytes in a gibibyte.
pub const GIB: u64 = 1_073_741_824;

/// The whole number nearest to `n / d`, and of two that are equally near the even one.
pub open spec fn nearest(n: nat, d: nat) -> nat
    recommends
        d > 0,
{
    let (q, r) = (n / d, n % d);
    if 2 * r > d || (2 * r == d && q % 2 == 1) {
        q + 1
    } else {
        q
    }
}

/// The distance between neighbours among the whole numbers of this size that a number
/// with 53 significant bits can be.
pub open spec fn spacing(n: nat) -> nat
    decreases n,
{
    if n < 0x20_0000_0000_0000 {
        1
    } else {
        2 * spacing(n / 2)
    }
}

/// A byte count in hundredths of a unit: rounded to 53 significant bits, divided, and
/// rounded again.
pub open spec fn hundredths(bytes: nat, unit: nat) -> nat {
    nearest(nearest(bytes, spacing(bytes)) * spacing(bytes) * 100, unit)
}

/// A number of hundredths, with a point before the last two digits.
pub open spec fn with_point(hundredths: nat) -> Seq<char> {
    text::decimal(hundredths / 100) + "."@ + seq![
        text::digit(hundredths % 100 / 10),
        text::digit(hundredths % 10),
    ]
}

/// A byte count in the largest unit that it fills, with two decimals; in bytes where it
/// fills none.
pub open spec fn size_text(bytes: nat) -> Seq<char> {
    if bytes >= GIB {
        with_point(hundredths(bytes, GIB as nat)) + " GiB"@
    } else if bytes >= MIB {
        with_point(hundredths(bytes, MIB as nat)) + " MiB"@
    } else if bytes >= KIB {
        with_point(hundredths(bytes, KIB as nat)) + " KiB"@
    } else {
        text::decimal(bytes) + " B"@
    }
}

fn round_nearest(n: u128, d: u128) -> (r: u128)
    requires
        0 < d <= 0x1_0000_0000_0000_0000,
        n < 0x1_0000_0000_0000_0000_0000_0000,
    ensures
        r == nearest(n as nat, d as nat),
        r <= n + 1,
{
    let q: u128 = n / d;
    let r: u128 = n % d;
    assert(q <= n) by (nonlinear_arith)
        requires
            q == n / d,
            d > 0,
    ;
    if 2 * r > d || (2 * r == d && q % 2 == 1) {
        q + 1
    } else {
        q
    }
}

proof fn lemma_spacing_bound(n: nat)
    ensures
        1 <= spacing(n),
        n >= 0x20_0000_0000_0000 ==> spacing(n) * 0x10_0000_0000_0000 <= n,
        n < 0x20_0000_0000_0000 ==> spacing(n) == 1,
    decreases n,
{
    if n >= 0x20_0000_0000_0000 {
        lemma_spacing_bound(n / 2);
    }
}

fn spacing_of(n: u64) -> (s: u64)
    ensures
        s == spacing(n as nat),
        1 <= s <= 4096,
    decreases n,
{
    proof {
        lemma_spacing_bound(n as nat);
    }
    if n < 0x20_0000_0000_0000 {
        1
    } else {
        proof {
            lemma_spacing_bound((n / 2) as nat);
        }
        2 * spacing_of(n / 2)
    }
}

fn push_amount(s: &mut String, bytes: u64, unit: u64)
    requires
        unit >= 1024,
    ensures
        final(s)@ == old(s)@ + with_point(hundredths(bytes as nat, unit as nat)),
{
    let ghost start = s@;
    let step: u64 = spacing_of(bytes);
    let steps: u128 = round_nearest(bytes as u128, step as u128);
    assert(steps * step <= 0x1_0000_0000_0000_0000 * 4096) by (nonlinear_arith)
        requires
            steps <= bytes + 1,
            bytes <= 0xFFFF_FFFF_FFFF_FFFF,
            step <= 4096,
    ;
    let rounded: u128 = steps * step as u128;
    let amount: u128 = round_nearest(rounded * 100, unit as u128);
    text::push_decimal_wide(s, amount / 100);
    s.append(".");
    s.push((48u8 + (amount % 100 / 10) as u8) as char);
    s.push((48u8 + (amount % 10) as u8) as char);
    assert(s@ =~= start + with_point(hundredths(bytes as nat, unit as nat)));
}

/// Formats a byte count for people to read (B, KiB, MiB, GiB).
pub fn format_size(bytes: u64) -> (s: String)
    ensures
        s@ == size_text(bytes as nat),
{
    let mut s = String::new();
    if bytes >= GIB {
        push_amount(&mut s, bytes, GIB);
        s.append(" GiB");
    } else if bytes >= MIB {
        push_amount(&mut s, bytes, MIB);
        s.append(" MiB");
    } else if bytes >= KIB {
        push_amount(&mut s, bytes, KIB);
        s.append(" KiB");
    } else {
        text::push_decimal(&mut s, bytes);
        s.append(" B");
    }
    assert(s@ =~= size_text(bytes as nat));
    s
}

/// Up to nine petabytes the amount shown is the true one, off by half a hundredth at most.
pub proof fn law_amount_is_nearest_hundredth(bytes: nat, unit: nat)
    requires
        unit > 0,
        bytes < 0x20_0000_0000_0000,
    ensures
        2 * bytes * 100 <= 2 * hundredths(bytes, unit) * unit + unit,
        2 * hundredths(bytes, unit) * unit <= 2 * bytes * 100 + unit,
{
    lemma_spacing_bound(bytes);
    assert(nearest(bytes, 1) == bytes);
    let n = bytes * 100;
    let (q, r) = (n / unit, n % unit);
    assert(n == q * unit + r && 0 <= r < unit) by (nonlinear_arith)
        requires
            q == n / unit,
            r == n % unit,
            unit > 0,
    ;
    assert((q + 1) * unit == q * unit + unit) by (nonlinear_arith);
    assert(hundredths(bytes, unit) == nearest(n, unit));
    let h = nearest(n, unit);
    assert(2 * h * unit == 2 * (h * unit)) by (nonlinear_arith);
}

/// A size is given in the largest unit that it fills, as hundredths with a point before the
/// last two digits; in bytes, as they are, where it fills none.
pub proof fn law_size_is_given_in_the_largest_unit(bytes: nat)
    ensures
        bytes < 1024 ==> size_text(bytes) == text::decimal(bytes) + " B"@,
        1024 <= bytes < 1024 * 1024 ==> size_text(bytes) == pointed(hundredths(bytes, 1024))
            + " KiB"@,
        1024 * 1024 <= bytes < 1024 * 1024 * 1024 ==> size_text(bytes) == pointed(
            hundredths(bytes, 1024 * 1024),
        ) + " MiB"@,
        1024 * 1024 * 1024 <= bytes ==> size_text(bytes) == pointed(
            hundredths(bytes, 1024 * 1024 * 1024),
        ) + " GiB"@,
{
    assert forall|h: nat| #[trigger] with_point(h) == pointed(h) by {
        lemma_pointed(h);
    }
}

/// A number of hundredths, whole part and two decimals.
pub open spec fn pointed(hundredths: nat) -> Seq<char> {
    let (whole, tens, ones) = (hundredths / 100, hundredths / 10 % 10, hundredths % 10);
    text::decimal(whole) + seq!['.', ('0' as nat + tens) as char, ('0' as nat + ones) as char]
}

proof fn lemma_pointed(h: nat)
    ensures
        with_point(h) == pointed(h),
{
    reveal_strlit(".");
    assert(h % 100 / 10 == h / 10 % 10);
    assert(with_point(h) =~= pointed(h));
}

/// Whole units are shown as such: a whole number of kibibytes, say, has the decimals `00`.
pub proof fn law_whole_units_are_exact(count: nat, unit: nat)
    requires
        unit == 1024 || unit == 1024 * 1024 || unit == 1024 * 1024 * 1024,
        count * unit < 0x20_0000_0000_0000,
    ensures
        hundredths(count * unit, unit) == count * 100,
{
    let bytes = count * unit;
    lemma_spacing_bound(bytes);
    assert(nearest(bytes, 1) == bytes);
    assert(bytes * 100 == (count * 100) * unit) by (nonlinear_arith)
        requires
            bytes == count * unit,
    ;
    assert(((count * 100) * unit) / unit == count * 100 && ((count * 100) * unit) % unit == 0)
        by (nonlinear_arith)
        requires
            unit > 0,
    ;
}

/// Rounding goes to the nearest whole number, and of two that are equally near to the even one.
pub proof fn law_rounding_goes_to_the_nearest(n: nat, d: nat)
    requires
        d > 0,
    ensures
        2 * n <= 2 * (nearest(n, d) * d) + d,
        2 * (nearest(n, d) * d) <= 2 * n + d,
        2 * (n % d) == d ==> nearest(n, d) % 2 == 0,
{
    let (q, r) = (n / d, n % d);
    assert(n == q * d + r && 0 <= r < d) by (nonlinear_arith)
        requires
            q == n / d,
            r == n % d,
            d > 0,
    ;
    assert((q + 1) * d == q * d + d) by (nonlinear_arith);
}

/// Of a size of nine petabytes or more the 53 leading bits count: its steps are a power of two,
/// and between 2^52 and 2^53 of them make it up. Below that every byte counts.
pub proof fn law_large_sizes_keep_their_leading_bits(n: nat)
    ensures
        n < 0x20_0000_0000_0000 ==> spacing(n) == 1,
        n >= 0x20_0000_0000_0000 ==> {
            &&& spacing(n) == 2 * spacing(n / 2)
            &&& 0x10_0000_0000_0000 * spacing(n) <= n < 0x20_0000_0000_0000 * spacing(n)
        },
        hundredths(n, 1024) == nearest(nearest(n, spacing(n)) * spacing(n) * 100, 1024),
    decreases n,
{
    if n >= 0x20_0000_0000_0000 {
        law_large_sizes_keep_their_leading_bits(n / 2);
    }
}

} // verus!
