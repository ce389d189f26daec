//! The rain field: rows of rain, the newest first, that grow by one row with
//! every tick and are cut to the height of the viewport.

use vstd::prelude::*;
use rand::rngs::ThreadRng;
use rand::Rng;
use crate::config::Config;

verus! {

/// `ThreadRng` of rand, the handle to a thread's random number generator.
/// The library only hands it on to rand.
#[verifier::external_type_specification]
#[verifier::external_body]
pub struct ExThreadRng(ThreadRng);

/// `rand::rng` hands out the calling thread's random number generator.
/// Nothing is claimed of it.
pub assume_specification[ rand::rng ]() -> (rng: ThreadRng);

/// `Rng::random_range` of rand, on the thread's generator and the range from
/// 0 to `max`, both ends included: rand documents that the number lies in the
/// range. Which number it is depends on chance, so no more is claimed.
#[verifier::external_body]
fn random_up_to(rng: &mut ThreadRng, max: usize) -> (draw: usize)
    ensures
        draw <= max,
{
    rng.random_range(0..=max)
}

/// The character of a rain cell whose draw is `draw`: the first rain
/// character for 0, the second for 1, a blank for anything else.
pub open spec fn drop_of(draw: usize, config: Config) -> char {
    if draw == 0 {
        config.rain1
    } else if draw == 1 {
        config.rain2
    } else {
        ' '
    }
}

/// The rain row that the draws `draws` give, one cell for each draw.
pub open spec fn row_of(draws: Seq<usize>, config: Config) -> Seq<char> {
    Seq::new(draws.len(), |k: int| drop_of(draws[k], config))
}

/// The field after one tick in a viewport of `rows` lines: the new row `row`
/// is put in front, and what is then beyond `rows` rows is cut off.
pub open spec fn advanced(field: Seq<Seq<char>>, rows: nat, row: Seq<char>) -> Seq<Seq<char>> {
    let grown = seq![row] + field;
    if grown.len() > rows {
        grown.take(rows as int)
    } else {
        grown
    }
}

/// How many rows a field of `len` rows has after one tick in a viewport of
/// `rows` lines: one more than before, but never more than the viewport has
/// lines.
pub open spec fn len_after_tick(len: nat, rows: nat) -> nat {
    if len + 1 > rows {
        rows
    } else {
        len + 1
    }
}

/// How many rows a field of `len` rows has after the ticks whose viewport
/// heights are `heights`, in order.
pub open spec fn len_after(len: nat, heights: Seq<nat>) -> nat
    decreases heights.len(),
{
    if heights.len() == 0 {
        len
    } else {
        len_after_tick(len_after(len, heights.drop_last()), heights.last())
    }
}

/// After a tick the field has as many rows as `len_after_tick` says. Where
/// the viewport has a line at all, the new row is the first one; every other
/// row is the row that stood one place before it, unchanged, and the rows
/// that no longer fit are the oldest.
pub proof fn lemma_advanced_rows(field: Seq<Seq<char>>, rows: nat, row: Seq<char>)
    ensures
        advanced(field, rows, row).len() == len_after_tick(field.len(), rows),
        advanced(field, rows, row).len() <= rows,
        rows >= 1 ==> advanced(field, rows, row)[0] == row,
        forall|k: int|
            1 <= k < advanced(field, rows, row).len() ==> #[trigger] advanced(field, rows, row)[k]
                == field[k - 1],
{
}

/// After any run of ticks, whatever heights the viewport had on the way, the
/// field has no more rows than the viewport of the last tick has lines.
pub proof fn lemma_len_after_bounded(len: nat, heights: Seq<nat>)
    requires
        heights.len() > 0,
    ensures
        len_after(len, heights) <= heights.last(),
{
}

/// After `ticks` ticks in a viewport that keeps its `rows` lines, a field
/// that began with `len` rows has `ticks` rows more, but never more than the
/// viewport has lines: from an empty field, the smaller of `ticks` and
/// `rows`.
pub proof fn lemma_len_after_steady(len: nat, rows: nat, ticks: nat)
    requires
        ticks >= 1,
    ensures
        len_after(len, Seq::new(ticks, |i: int| rows)) == if len + ticks > rows {
            rows
        } else {
            len + ticks
        },
    decreases ticks,
{
    let heights = Seq::new(ticks, |i: int| rows);
    let before = Seq::new((ticks - 1) as nat, |i: int| rows);
    assert(heights.drop_last() =~= before);
    assert(heights.last() == rows);
    if ticks == 1 {
        assert(len_after(len, before) == len);
    } else {
        lemma_len_after_steady(len, rows, (ticks - 1) as nat);
    }
}

/// What a tick makes of a field depends on nothing but the rows of the
/// field, the viewport's height, the settings and the draws: two ticks that
/// agree in these give the same rows.
pub proof fn lemma_advance_is_deterministic(
    field1: Seq<Seq<char>>,
    field2: Seq<Seq<char>>,
    rows: nat,
    config: Config,
    draws1: Seq<usize>,
    draws2: Seq<usize>,
)
    requires
        field1.len() == field2.len(),
        forall|i: int| 0 <= i < field1.len() ==> field1[i] == field2[i],
        draws1.len() == draws2.len(),
        forall|k: int| 0 <= k < draws1.len() ==> draws1[k] == draws2[k],
    ensures
        row_of(draws1, config) == row_of(draws2, config),
        advanced(field1, rows, row_of(draws1, config)) == advanced(
            field2,
            rows,
            row_of(draws2, config),
        ),
{
    assert(field1 =~= field2);
    assert(draws1 =~= draws2);
}

/// With a frequency of 0 every draw is 0, and the row is made of the first
/// rain character alone.
pub proof fn lemma_row_at_frequency_zero(draws: Seq<usize>, config: Config)
    requires
        config.frequency == 0,
        forall|k: int| 0 <= k < draws.len() ==> #[trigger] draws[k] <= config.frequency,
    ensures
        row_of(draws, config) == Seq::new(draws.len(), |k: int| config.rain1),
{
    assert(row_of(draws, config) =~= Seq::new(draws.len(), |k: int| config.rain1));
}

/// A number between 0 and `max`, both included, drawn at random.
fn get_random_int(max: usize) -> (draw: usize)
    ensures
        draw <= max,
{
    let mut rng = rand::rng();
    random_up_to(&mut rng, max)
}

/// The character of a rain cell whose draw is `rand`.
pub fn make_drop(rand: usize, config: &Config) -> (c: char)
    ensures
        c == drop_of(rand, *config),
{
    if rand == 0 {
        config.rain1
    } else if rand == 1 {
        config.rain2
    } else {
        ' '
    }
}

/// One draw between 0 and `max` for each of `count` cells.
pub fn draw_cells(count: u16, max: usize) -> (draws: Vec<usize>)
    ensures
        draws@.len() == count,
        forall|k: int| 0 <= k < count ==> #[trigger] draws@[k] <= max,
{
    let mut draws: Vec<usize> = Vec::new();
    let mut k: u16 = 0;
    while k < count
        invariant
            k <= count,
            draws@.len() == k,
            forall|j: int| 0 <= j < k ==> #[trigger] draws@[j] <= max,
        decreases count - k,
    {
        draws.push(get_random_int(max));
        k += 1;
    }
    draws
}

/// Advances the field by one tick with the given draws: puts in front the
/// row that `draws` give, one cell for each draw, and cuts the field to `row`
/// rows.
pub fn advance(rain: &mut Vec<String>, row: u16, config: &Config, draws: &Vec<usize>)
    ensures
        final(rain).deep_view() == advanced(
            old(rain).deep_view(),
            row as nat,
            row_of(draws@, *config),
        ),
        final(rain)@.len() == len_after_tick(old(rain)@.len(), row as nat),
        final(rain)@.len() <= row,
{
    let mut new_rain = String::new();
    let mut k: usize = 0;
    while k < draws.len()
        invariant
            k <= draws@.len(),
            new_rain@ == row_of(draws@.take(k as int), *config),
        decreases draws@.len() - k,
    {
        new_rain.push(make_drop(draws[k], config));
        k += 1;
        assert(new_rain@ =~= row_of(draws@.take(k as int), *config));
    }
    assert(draws@.take(draws@.len() as int) =~= draws@);
    rain.insert(0, new_rain);
    assert(rain.deep_view() =~= seq![row_of(draws@, *config)] + old(rain).deep_view());
    if rain.len() > row as usize {
        rain.truncate(row as usize);
    }
    assert(rain.deep_view() =~= advanced(
        old(rain).deep_view(),
        row as nat,
        row_of(draws@, *config),
    ));
}

/// Advances the field by one tick in a viewport of `column` by `row`: puts
/// in front a new row of `column` cells, each from a random draw between 0
/// and `config.frequency` of its own, and cuts the field to `row` rows.
pub fn call_rain(rain: &mut Vec<String>, column: u16, row: u16, config: &Config)
    ensures
        exists|draws: Seq<usize>|
            {
                &&& draws.len() == column
                &&& forall|k: int| 0 <= k < column ==> #[trigger] draws[k] <= config.frequency
                &&& final(rain).deep_view() == advanced(
                    old(rain).deep_view(),
                    row as nat,
                    #[trigger] row_of(draws, *config),
                )
            },
        final(rain)@.len() == len_after_tick(old(rain)@.len(), row as nat),
        final(rain)@.len() <= row,
        row >= 1 ==> final(rain)@[0]@.len() == column,
        row >= 1 && config.frequency == 0 ==> final(rain)@[0]@ == Seq::new(
            column as nat,
            |k: int| config.rain1,
        ),
{
    let draws = draw_cells(column, config.frequency);
    advance(rain, row, config, &draws);
    proof {
        let cells = row_of(draws@, *config);
        if row >= 1 {
            assert(rain.deep_view()[0] == cells);
            assert(rain@[0]@ == rain.deep_view()[0]);
            if config.frequency == 0 {
                assert(cells =~= Seq::new(column as nat, |k: int| config.rain1));
            }
        }
    }
}

} // verus!
