//! What numbers, times and texts mean, told apart from how they are worked out.

use crate::clock::Timestamp;
use crate::double::{percent_change, Double, Percent};
use crate::text::{
    ascii_lowered, decimal, is_white_space, replaced, signed_decimal, trimmed, trimmed_end,
    trimmed_start, zero_padded,
};
use vstd::prelude::*;

verus! {

/// A number is finite exactly if its exponent bits are not all set; with all of them set it is a
/// NaN exactly if the fraction is not zero.
pub proof fn exponent_tells_finite(x: Double)
    ensures
        x.finite() <==> x.bits & 0x7ff0_0000_0000_0000u64 != 0x7ff0_0000_0000_0000u64,
        x.nan() <==> x.bits & 0x7ff0_0000_0000_0000u64 == 0x7ff0_0000_0000_0000u64 && x.bits
            & 0x000f_ffff_ffff_ffffu64 != 0,
{
    let b = x.bits;
    assert(b >= 0x8000_0000_0000_0000u64 ==> (b - 0x8000_0000_0000_0000u64
        < 0x7ff0_0000_0000_0000u64 <==> b & 0x7ff0_0000_0000_0000u64 != 0x7ff0_0000_0000_0000u64))
        by (bit_vector);
    assert(b < 0x8000_0000_0000_0000u64 ==> (b < 0x7ff0_0000_0000_0000u64 <==> b
        & 0x7ff0_0000_0000_0000u64 != 0x7ff0_0000_0000_0000u64)) by (bit_vector);
    assert(b >= 0x8000_0000_0000_0000u64 ==> (b - 0x8000_0000_0000_0000u64
        > 0x7ff0_0000_0000_0000u64 <==> (b & 0x7ff0_0000_0000_0000u64 == 0x7ff0_0000_0000_0000u64
        && b & 0x000f_ffff_ffff_ffffu64 != 0))) by (bit_vector);
    assert(b < 0x8000_0000_0000_0000u64 ==> (b > 0x7ff0_0000_0000_0000u64 <==> (b
        & 0x7ff0_0000_0000_0000u64 == 0x7ff0_0000_0000_0000u64 && b & 0x000f_ffff_ffff_ffffu64
        != 0))) by (bit_vector);
}

/// Sanitizing keeps every finite number and makes positive zero of any other.
pub proof fn sanitizing_replaces_by_zero(x: Double)
    ensures
        x.bits & 0x7ff0_0000_0000_0000u64 != 0x7ff0_0000_0000_0000u64 ==> x.sanitized().bits
            == x.bits,
        x.bits & 0x7ff0_0000_0000_0000u64 == 0x7ff0_0000_0000_0000u64 ==> x.sanitized().bits == 0,
{
    exponent_tells_finite(x);
}

/// No NaN is ordered. Of two other numbers, those without a sign are ordered as their bits, those
/// with a sign the other way round, and one with a sign comes before one without; the two zeros
/// are equal.
pub proof fn numbers_are_ordered_by_value(a: Double, b: Double)
    ensures
        a.nan() || b.nan() ==> !a.at_most(b),
        !a.nan() && !b.nan() && a.bits < 0x8000_0000_0000_0000 && b.bits
            < 0x8000_0000_0000_0000 ==> (a.at_most(b) <==> a.bits <= b.bits),
        !a.nan() && !b.nan() && a.bits >= 0x8000_0000_0000_0000 && b.bits
            >= 0x8000_0000_0000_0000 ==> (a.at_most(b) <==> a.bits >= b.bits),
        !a.nan() && !b.nan() && a.bits >= 0x8000_0000_0000_0000 && b.bits
            < 0x8000_0000_0000_0000 ==> a.at_most(b),
        !a.nan() && !b.nan() && a.bits < 0x8000_0000_0000_0000 && b.bits
            >= 0x8000_0000_0000_0000 ==> (a.at_most(b) <==> a.bits == 0 && b.bits
            == 0x8000_0000_0000_0000),
{
}

/// The larger of two numbers is one of them and is not exceeded by either; a NaN gives way.
pub proof fn larger_bounds_both(a: Double, b: Double)
    ensures
        a.larger(b) == a || a.larger(b) == b,
        !a.nan() ==> a.at_most(a.larger(b)),
        !b.nan() ==> b.at_most(a.larger(b)),
        a.nan() ==> a.larger(b) == b,
        b.nan() && !a.nan() ==> a.larger(b) == a,
{
}

/// A change is measured from a known entry above zero to the value, which counts as zero where it
/// is unknown, whether it lies above, at or below the entry; it is zero only where the entry is
/// unknown or not above zero.
pub proof fn changes_are_measured_from_the_entry(entry: Option<Double>, value: Option<Double>)
    ensures
        entry is None ==> percent_change(entry, value) == Percent::Zero,
        entry matches Some(e) ==> {
            &&& e.at_most(Double { bits: 0 }) ==> percent_change(entry, value) == Percent::Zero
            &&& !e.at_most(Double { bits: 0 }) ==> {
                &&& value matches Some(v) ==> percent_change(entry, value) == Percent::Change {
                    entry: e,
                    value: v,
                }
                &&& value is None ==> percent_change(entry, value) == Percent::Change {
                    entry: e,
                    value: Double { bits: 0 },
                }
            }
        },
{
}

/// Nanoseconds since the Unix epoch.
pub open spec fn nanoseconds(t: Timestamp) -> int {
    t.seconds() * 1_000_000_000 + t.subsec_nanos()
}

/// The milliseconds between two points leave out less than one, towards zero; a latency is the
/// same where the second point comes no earlier than the first, and zero otherwise.
pub proof fn milliseconds_between_points(a: Timestamp, b: Timestamp)
    ensures
        nanoseconds(a) <= nanoseconds(b) ==> {
            &&& 0 <= nanoseconds(b) - nanoseconds(a) - b.millis_after(a) * 1_000_000 < 1_000_000
            &&& crate::clock::latency(a, b) == b.millis_after(a)
        },
        nanoseconds(b) <= nanoseconds(a) ==> {
            &&& 0 <= nanoseconds(a) - nanoseconds(b) + b.millis_after(a) * 1_000_000 < 1_000_000
            &&& crate::clock::latency(a, b) == 0
        },
{
}

/// The milliseconds since the epoch leave out less than one, downwards.
pub proof fn milliseconds_since_the_epoch(t: Timestamp)
    ensures
        0 <= nanoseconds(t) - t.epoch_millis() * 1_000_000 < 1_000_000,
{
}

/// The number that decimal digits stand for.
pub open spec fn number_of(digits: Seq<char>) -> int
    decreases digits.len(),
{
    if digits.len() == 0 {
        0
    } else {
        number_of(digits.drop_last()) * 10 + (digits.last() as int - '0' as int)
    }
}

/// Whether a text consists of decimal digits.
pub open spec fn all_digits(text: Seq<char>) -> bool {
    forall|i: int| 0 <= i < text.len() ==> '0' <= #[trigger] text[i] <= '9'
}

/// A decimal rendering consists of digits, reads back as the number, and has no leading zero but
/// for zero itself.
pub proof fn decimal_reads_back(n: nat)
    ensures
        all_digits(decimal(n)),
        number_of(decimal(n)) == n,
        decimal(n).len() > 0,
        decimal(n).len() > 1 ==> decimal(n)[0] != '0',
        n > 0 ==> decimal(n)[0] != '0',
    decreases n,
{
    if n >= 10 {
        decimal_reads_back(n / 10);
        assert(decimal(n).drop_last() =~= decimal(n / 10));
    } else {
        assert(decimal(n).drop_last() =~= Seq::<char>::empty());
        assert(number_of(Seq::<char>::empty()) == 0);
        assert(decimal(n).last() == crate::text::digit(n));
    }
}

/// A signed rendering is a minus and the digits of the rest below zero, and digits otherwise.
pub proof fn signed_decimal_reads_back(n: int)
    ensures
        n >= 0 ==> all_digits(signed_decimal(n)) && number_of(signed_decimal(n)) == n,
        n < 0 ==> signed_decimal(n)[0] == '-' && all_digits(signed_decimal(n).drop_first())
            && number_of(signed_decimal(n).drop_first()) == -n,
        n > 0 ==> signed_decimal(n)[0] != '0',
        n < 0 ==> signed_decimal(n)[1] != '0',
{
    if n < 0 {
        decimal_reads_back((-n) as nat);
        assert(signed_decimal(n).drop_first() =~= decimal((-n) as nat));
    } else {
        decimal_reads_back(n as nat);
    }
}

proof fn leading_zeros_count_nothing(n: nat, digits: Seq<char>)
    ensures
        number_of(crate::text::zeros(n) + digits) == number_of(digits),
    decreases digits.len(), n,
{
    let all = crate::text::zeros(n) + digits;
    if digits.len() > 0 {
        assert(all.drop_last() =~= crate::text::zeros(n) + digits.drop_last());
        leading_zeros_count_nothing(n, digits.drop_last());
    } else if n > 0 {
        assert(all.drop_last() =~= crate::text::zeros((n - 1) as nat) + digits);
        leading_zeros_count_nothing((n - 1) as nat, digits);
    }
}

/// A padded rendering consists of digits, at least as many as asked for, and reads back as the
/// number; it has no leading zero beyond the width.
pub proof fn zero_padded_reads_back(n: nat, width: nat)
    ensures
        all_digits(zero_padded(n, width)),
        number_of(zero_padded(n, width)) == n,
        zero_padded(n, width).len() >= width,
        zero_padded(n, width).len() > width && n > 0 ==> zero_padded(n, width)[0] != '0',
        zero_padded(n, width).len() > width && n == 0 ==> zero_padded(n, width).len() == 1,
{
    decimal_reads_back(n);
    if decimal(n).len() < width {
        leading_zeros_count_nothing((width - decimal(n).len()) as nat, decimal(n));
    }
}

/// Whether a text consists of white space.
pub open spec fn all_white(text: Seq<char>) -> bool {
    forall|i: int| 0 <= i < text.len() ==> is_white_space(#[trigger] text[i])
}

proof fn start_is_white(s: Seq<char>) -> (n: int)
    ensures
        0 <= n <= s.len(),
        all_white(s.take(n)),
        trimmed_start(s) == s.skip(n),
    decreases s.len(),
{
    if s.len() > 0 && is_white_space(s[0]) {
        let m = start_is_white(s.drop_first());
        assert forall|i: int| 0 <= i < m + 1 implies is_white_space(
            #[trigger] s.take(m + 1)[i],
        ) by {
            if i > 0 {
                assert(s.drop_first().take(m)[i - 1] == s[i]);
            }
        }
        assert(s.drop_first().skip(m) =~= s.skip(m + 1));
        m + 1
    } else {
        assert(s.skip(0) =~= s);
        0
    }
}

proof fn end_is_white(s: Seq<char>) -> (n: int)
    ensures
        0 <= n <= s.len(),
        all_white(s.skip(n)),
        trimmed_end(s) == s.take(n),
    decreases s.len(),
{
    if s.len() > 0 && is_white_space(s.last()) {
        let m = end_is_white(s.drop_last());
        assert forall|i: int| 0 <= i < s.skip(m).len() implies is_white_space(
            #[trigger] s.skip(m)[i],
        ) by {
            if i < s.len() - 1 - m {
                assert(s.drop_last().skip(m)[i] == s[m + i]);
            }
        }
        assert(s.drop_last().take(m) =~= s.take(m));
        m
    } else {
        assert(s.take(s.len() as int) =~= s);
        s.len() as int
    }
}

/// Trimming takes off white space only: the text is white space, what is left, and white space;
/// what is left neither starts nor ends with white space.
pub proof fn trimming_takes_off_white_space(s: Seq<char>)
    ensures
        exists|lead: Seq<char>, trail: Seq<char>|
            all_white(lead) && all_white(trail) && s == #[trigger] (lead + trimmed(s) + trail),
        trimmed(s).len() > 0 ==> !is_white_space(trimmed(s)[0]) && !is_white_space(
            trimmed(s).last(),
        ),
{
    crate::text::trimming_is_final(s);
    let n = start_is_white(s);
    let rest = s.skip(n);
    let m = end_is_white(rest);
    let lead = s.take(n);
    let trail = rest.skip(m);
    assert(s =~= lead + trimmed(s) + trail);
}

/// White space is what Unicode calls so, by code point.
pub proof fn white_space_by_code_point(c: char)
    ensures
        is_white_space(c) <==> {
            let n = c as int;
            ||| n == 9 || n == 10 || n == 11 || n == 12 || n == 13 || n == 32
            ||| n == 133 || n == 160 || n == 5760
            ||| 8192 <= n < 8203
            ||| n == 8232 || n == 8233 || n == 8239 || n == 8287 || n == 12288
        },
{
}

/// Replacing a character changes that character everywhere, and nothing else.
pub proof fn replacing_changes_one_character(s: Seq<char>, from: char, to: char, i: int)
    requires
        0 <= i < s.len(),
    ensures
        replaced(s, from, to).len() == s.len(),
        s[i] == from ==> replaced(s, from, to)[i] == to,
        s[i] != from ==> replaced(s, from, to)[i] == s[i],
{
}

/// Lowering moves the letters from A to Z by the distance of the alphabets, and nothing else.
pub proof fn lowering_changes_ascii_letters(s: Seq<char>, i: int)
    requires
        0 <= i < s.len(),
    ensures
        ascii_lowered(s).len() == s.len(),
        65 <= s[i] as int <= 90 ==> ascii_lowered(s)[i] as int == s[i] as int + 32,
        !(65 <= s[i] as int <= 90) ==> ascii_lowered(s)[i] == s[i],
{
}

/// The identifier of an event is the run's, a dash, and the event's number in at least six digits.
pub proof fn event_ids_end_with_the_number(run_id: Seq<char>, n: nat)
    ensures
        ({
            let id = crate::run::event_id_for(run_id, n);
            let number = id.skip(run_id.len() + 1int);
            &&& id.len() >= run_id.len() + 7
            &&& id.take(run_id.len() as int) == run_id
            &&& id[run_id.len() as int] == '-'
            &&& all_digits(number)
            &&& number_of(number) == n
            &&& number.len() > 6 ==> number[0] != '0'
        }),
{
    reveal_strlit("-");
    zero_padded_reads_back(n, 6);
    let id = crate::run::event_id_for(run_id, n);
    assert(id.skip(run_id.len() + 1int) =~= zero_padded(n, 6));
    assert(id.take(run_id.len() as int) =~= run_id);
}

/// The identifier of a session is the mint, a dash, and the milliseconds at which the run began.
pub proof fn session_ids_end_with_the_start(mint: Seq<char>, started_at: Timestamp)
    ensures
        ({
            let id = crate::session::session_id_for(mint, started_at);
            let millis = id.skip(mint.len() + 1int);
            &&& id.take(mint.len() as int) == mint
            &&& id[mint.len() as int] == '-'
            &&& started_at.epoch_millis() >= 0 ==> all_digits(millis) && number_of(millis)
                == started_at.epoch_millis()
            &&& started_at.epoch_millis() < 0 ==> millis[0] == '-' && all_digits(
                millis.drop_first(),
            ) && number_of(millis.drop_first()) == -started_at.epoch_millis()
        }),
{
    reveal_strlit("-");
    signed_decimal_reads_back(started_at.epoch_millis());
    let id = crate::session::session_id_for(mint, started_at);
    assert(id.skip(mint.len() + 1int) =~= signed_decimal(started_at.epoch_millis()));
    assert(id.take(mint.len() as int) =~= mint);
}

} // verus!
