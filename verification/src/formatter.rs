//! From a time to the six digits that show it, and from the digits to their
//! glyphs.

use vstd::prelude::*;
use crate::clock::{Elapsed, TimeOfDay};
use crate::font::{digit_pixels, num_to_arrays, Glyph, GLYPH_HEIGHT};

verus! {

/// The tens digit of a value below 100.
pub open spec fn tens(value: nat) -> nat {
    value / 10
}

/// The ones digit of a value: what is left of it beside its tens.
pub open spec fn ones(value: nat) -> nat {
    (value - tens(value) * 10) as nat
}

/// The six digits of a time: tens and ones of the hour, of the minute and of
/// the second, in that order.
pub open spec fn digit_sequence(hour: nat, minute: nat, second: nat) -> Seq<nat> {
    seq![tens(hour), ones(hour), tens(minute), ones(minute), tens(second), ones(second)]
}

/// The digits that an array holds, as numbers.
pub open spec fn digits_of(array: Seq<u32>) -> Seq<nat> {
    array.map_values(|d: u32| d as nat)
}

/// A component as two digits can show it: itself below 100, and from there
/// on starting again at 0.
pub open spec fn shown(value: nat) -> nat {
    value % 100
}

/// What a count of elapsed units shows in a field that starts again at
/// `limit`: nothing before the start, and the count modulo `limit` after it.
pub open spec fn rolled(count: int, limit: int) -> nat {
    if count < 0 {
        0
    } else {
        (count % limit) as nat
    }
}

/// The digits that show the time of day `time`.
pub open spec fn clock_digits(time: TimeOfDay) -> Seq<nat> {
    digit_sequence(shown(time.hour as nat), shown(time.minute as nat), shown(time.second as nat))
}

/// The digits of a counter that has run for `seconds` whole seconds: the
/// whole hours, starting again at 100, the whole minutes, starting again at
/// 60, and the seconds, starting again at 60; all zero before the start.
pub open spec fn counter_digits(seconds: int) -> Seq<nat> {
    digit_sequence(rolled(seconds / 3600, 100), rolled(seconds / 60, 60), rolled(seconds, 60))
}

/// The glyphs of a sequence of digits, as pixels.
pub open spec fn glyphs_of(digits: Seq<nat>) -> Seq<Seq<Seq<u8>>> {
    Seq::new(digits.len(), |k: int| digit_pixels(digits[k]))
}

/// The digits of a time whose components are all below 100 are decimal
/// digits.
pub proof fn lemma_digits_are_decimal(hour: nat, minute: nat, second: nat)
    requires
        hour < 100,
        minute < 100,
        second < 100,
    ensures
        digit_sequence(hour, minute, second).len() == 6,
        forall|k: int| 0 <= k < 6 ==> #[trigger] digit_sequence(hour, minute, second)[k] <= 9,
{
}

/// The digits of a valid time of day are those of its hour, minute and
/// second, and the digits of a time of day and of a counter are always
/// decimal digits.
pub proof fn lemma_shown_digits(time: TimeOfDay, seconds: int)
    ensures
        time.is_valid() ==> clock_digits(time) == digit_sequence(
            time.hour as nat,
            time.minute as nat,
            time.second as nat,
        ),
        clock_digits(time).len() == 6,
        counter_digits(seconds).len() == 6,
        forall|k: int| 0 <= k < 6 ==> #[trigger] clock_digits(time)[k] <= 9,
        forall|k: int| 0 <= k < 6 ==> #[trigger] counter_digits(seconds)[k] <= 9,
{
    lemma_digits_are_decimal(
        shown(time.hour as nat),
        shown(time.minute as nat),
        shown(time.second as nat),
    );
    lemma_digits_are_decimal(
        rolled(seconds / 3600, 100),
        rolled(seconds / 60, 60),
        rolled(seconds, 60),
    );
}

fn two_digits(value: u32) -> (pair: (u32, u32))
    ensures
        pair.0 == tens(shown(value as nat)),
        pair.1 == ones(shown(value as nat)),
        value < 100 ==> pair.0 == tens(value as nat) && pair.1 == ones(value as nat),
        pair.0 <= 9,
        pair.1 <= 9,
{
    let value = value % 100;
    let first = value / 10;
    (first, value - first * 10)
}

/// The six digits that show `hour`, `minute` and `second`. A component of
/// 100 or more is shown modulo 100.
pub fn split_digits(hour: u32, minute: u32, second: u32) -> (digits: [u32; 6])
    ensures
        digits_of(digits@) == digit_sequence(
            shown(hour as nat),
            shown(minute as nat),
            shown(second as nat),
        ),
        hour < 100 && minute < 100 && second < 100 ==> digits_of(digits@) == digit_sequence(
            hour as nat,
            minute as nat,
            second as nat,
        ),
        forall|k: int| 0 <= k < 6 ==> #[trigger] digits[k] <= 9,
{
    let (first, second_digit) = two_digits(hour);
    let (third, fourth) = two_digits(minute);
    let (fifth, sixth) = two_digits(second);
    let digits = [first, second_digit, third, fourth, fifth, sixth];
    assert(digits_of(digits@) =~= seq![
        first as nat,
        second_digit as nat,
        third as nat,
        fourth as nat,
        fifth as nat,
        sixth as nat,
    ]);
    digits
}

/// The hour, minute and second fields of a counter that has run for
/// `seconds` whole seconds. The hours start again at 100, the minutes and
/// seconds at 60, and before the start every field is 0.
pub fn elapsed_fields(seconds: i64) -> (fields: (u32, u32, u32))
    ensures
        fields.0 == rolled(seconds / 3600, 100),
        fields.1 == rolled(seconds / 60, 60),
        fields.2 == rolled(seconds as int, 60),
        fields.0 < 100,
        fields.1 < 60,
        fields.2 < 60,
{
    if seconds < 0 {
        (0, 0, 0)
    } else {
        let total: u64 = seconds as u64;
        let hours: u64 = total / 3600;
        let minutes: u64 = total / 60;
        ((hours % 100) as u32, (minutes % 60) as u32, (total % 60) as u32)
    }
}

/// The glyphs of six decimal digits, in order.
pub fn digit_glyphs(digits: &[u32; 6]) -> (glyphs: Vec<Glyph>)
    requires
        forall|k: int| 0 <= k < 6 ==> #[trigger] digits[k] <= 9,
    ensures
        glyphs.deep_view() == glyphs_of(digits_of(digits@)),
        glyphs@.len() == 6,
        forall|k: int| 0 <= k < 6 ==> (#[trigger] glyphs@[k])@.len() == GLYPH_HEIGHT,
{
    let mut glyphs: Vec<Glyph> = Vec::new();
    let mut k: usize = 0;
    while k < 6
        invariant
            k <= 6,
            forall|j: int| 0 <= j < 6 ==> #[trigger] digits[j] <= 9,
            glyphs@.len() == k,
            forall|j: int| 0 <= j < k ==> (#[trigger] glyphs@[j]).deep_view() == digit_pixels(
                digits[j] as nat,
            ),
            forall|j: int| 0 <= j < k ==> (#[trigger] glyphs@[j])@.len() == GLYPH_HEIGHT,
        decreases 6 - k,
    {
        let glyph = num_to_arrays(digits[k]);
        assert(glyph@.len() == glyph.deep_view().len());
        glyphs.push(glyph);
        k += 1;
    }
    assert(glyphs.deep_view() =~= glyphs_of(digits_of(digits@)));
    glyphs
}

/// The glyphs that show the time of day `d`.
pub fn make_time(d: TimeOfDay) -> (glyphs: Vec<Glyph>)
    ensures
        glyphs.deep_view() == glyphs_of(clock_digits(d)),
        d.is_valid() ==> glyphs.deep_view() == glyphs_of(
            digit_sequence(d.hour as nat, d.minute as nat, d.second as nat),
        ),
        glyphs@.len() == 6,
        forall|k: int| 0 <= k < 6 ==> (#[trigger] glyphs@[k])@.len() == GLYPH_HEIGHT,
{
    let hour = d.hour;
    let min = d.minute;
    let sec = d.second;
    let digits = split_digits(hour, min, sec);
    digit_glyphs(&digits)
}

/// The glyphs that show the elapsed time `d` as a counter of hours, minutes
/// and seconds.
pub fn make_utc_time(d: Elapsed) -> (glyphs: Vec<Glyph>)
    ensures
        glyphs.deep_view() == glyphs_of(counter_digits(d.seconds as int)),
        glyphs@.len() == 6,
        forall|k: int| 0 <= k < 6 ==> (#[trigger] glyphs@[k])@.len() == GLYPH_HEIGHT,
{
    let (hour, min, sec) = elapsed_fields(d.seconds);
    let digits = split_digits(hour, min, sec);
    digit_glyphs(&digits)
}

} // verus!
