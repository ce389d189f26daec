//! One frame of the display: where the time block stands in the viewport and
//! what each line of the frame holds.

use vstd::prelude::*;
use crate::clock::{elapsed_between, local_time, now_millis, seconds_between, Instant, TimeOfDay};
use crate::compositor::{is_block, time_block, time_text, TIME_HEIGHT, TIME_WIDTH};
use crate::config::Config;
use crate::formatter::{clock_digits, counter_digits, make_time, make_utc_time};
use crate::rain::{advanced, call_rain, len_after_tick, row_of};
use crate::text::{blanks, fit_line, fitted};

verus! {

/// What the clock shows.
#[derive(Clone, Copy, Debug, PartialEq, Eq)]
pub enum Kind {
    /// The time of day.
    Clock,
    /// The time that has passed since the start of the run.
    Counter,
}

/// Half of `a`, rounded toward zero.
pub open spec fn half(a: int) -> int {
    if a >= 0 {
        a / 2
    } else {
        -((-a) / 2)
    }
}

/// Where a block of `block` cells starts in a viewport of `extent` cells so
/// that it stands in the middle: half of the free cells plus one, and never
/// less than zero.
pub open spec fn start_offset(extent: int, block: int) -> int {
    let start = half(extent - block) + 1;
    if start > 0 {
        start
    } else {
        0
    }
}

/// Blanks in front of each line of the time block: one less than the start
/// column, and none where the start column is zero.
pub open spec fn indent(start_x: int) -> nat {
    if start_x >= 1 {
        (start_x - 1) as nat
    } else {
        0
    }
}

/// Line `i` of the frame. Within the `TIME_HEIGHT` lines from the start line
/// on it is the line of the time block, indented and fitted to the viewport's
/// width; elsewhere the rain row of that index, fitted likewise; and a blank
/// line where the rain has no such row.
pub open spec fn frame_line(
    block: Seq<Seq<char>>,
    rain: Seq<Seq<char>>,
    columns: u16,
    rows: u16,
    i: int,
) -> Seq<char> {
    let start_x = start_offset(columns as int, TIME_WIDTH as int);
    let start_y = start_offset(rows as int, TIME_HEIGHT as int);
    if start_y <= i < start_y + TIME_HEIGHT {
        fitted(blanks(indent(start_x)) + block[i - start_y], columns as nat)
    } else if i < rain.len() {
        fitted(rain[i], columns as nat)
    } else {
        blanks(columns as nat)
    }
}

/// The whole frame: `rows` lines, each as `frame_line` gives it.
pub open spec fn frame(
    block: Seq<Seq<char>>,
    rain: Seq<Seq<char>>,
    columns: u16,
    rows: u16,
) -> Seq<Seq<char>> {
    Seq::new(rows as nat, |i: int| frame_line(block, rain, columns, rows, i))
}

/// Every frame has exactly as many lines as the viewport has rows, and every
/// line exactly as many characters as the viewport has columns, whatever the
/// time block and the rain hold.
pub proof fn lemma_frame_size(
    block: Seq<Seq<char>>,
    rain: Seq<Seq<char>>,
    columns: u16,
    rows: u16,
)
    ensures
        is_block(frame(block, rain, columns, rows), rows as nat, columns as nat),
{
}

fn start_of(extent: u16, block: u16) -> (start: u16)
    ensures
        start == start_offset(extent as int, block as int),
        start <= extent / 2 + 1,
{
    if extent >= block {
        (extent - block) / 2 + 1
    } else if block - extent == 1 {
        1
    } else {
        0
    }
}

/// The start column and the start line of the time block in a viewport of
/// `rows` lines and `columns` columns.
pub fn timer_point(rows: u16, columns: u16) -> (point: (u16, u16))
    ensures
        point.0 == start_offset(columns as int, TIME_WIDTH as int),
        point.1 == start_offset(rows as int, TIME_HEIGHT as int),
{
    (start_of(columns, TIME_WIDTH), start_of(rows, TIME_HEIGHT))
}

/// The lines of one frame for a viewport of `columns` by `rows`: the time
/// block `block` laid over the rain rows `rain`.
pub fn frame_lines(block: &Vec<String>, rain: &Vec<String>, columns: u16, rows: u16) -> (lines:
    Vec<String>)
    requires
        block@.len() == TIME_HEIGHT,
    ensures
        lines.deep_view() == frame(block.deep_view(), rain.deep_view(), columns, rows),
        lines@.len() == rows,
        forall|i: int| 0 <= i < rows ==> (#[trigger] lines@[i])@.len() == columns,
{
    let (start_x, start_y) = timer_point(rows, columns);
    let lead: usize = if start_x >= 1 { (start_x - 1) as usize } else { 0 };
    let mut lines: Vec<String> = Vec::new();
    let mut i: u16 = 0;
    while i < rows
        invariant
            i <= rows,
            block@.len() == TIME_HEIGHT,
            start_x == start_offset(columns as int, TIME_WIDTH as int),
            start_y == start_offset(rows as int, TIME_HEIGHT as int),
            start_y <= rows / 2 + 1,
            lead == indent(start_x as int),
            lines@.len() == i,
            forall|k: int| 0 <= k < i ==> (#[trigger] lines@[k])@ == frame_line(
                block.deep_view(),
                rain.deep_view(),
                columns,
                rows,
                k,
            ),
            forall|k: int| 0 <= k < i ==> (#[trigger] lines@[k])@.len() == columns,
        decreases rows - i,
    {
        let line = if i >= start_y && i - start_y < TIME_HEIGHT {
            fit_line(block[(i - start_y) as usize].as_str(), lead, columns as usize)
        } else if (i as usize) < rain.len() {
            let line = fit_line(rain[i as usize].as_str(), 0, columns as usize);
            assert(blanks(0) + rain@[i as int]@ =~= rain@[i as int]@);
            line
        } else {
            let line = fit_line("", 0, columns as usize);
            proof {
                reveal_strlit("");
                assert(line@ =~= blanks(columns as nat));
            }
            line
        };
        assert(line@ == frame_line(block.deep_view(), rain.deep_view(), columns, rows, i as int));
        lines.push(line);
        i += 1;
    }
    assert(lines.deep_view() =~= frame(block.deep_view(), rain.deep_view(), columns, rows));
    lines
}

/// The instant a run starts at, from which a counter counts.
pub fn start_instant() -> Instant {
    Instant { millis: now_millis() }
}

/// One tick of the display. Reads the clock and makes the time block for it:
/// the time of day for a clock, the time since `start` for a counter. Then
/// advances the rain by one row for the viewport of `columns` by `rows`, and
/// lays the time block over it. The result holds the `rows` lines of the
/// frame, each of exactly `columns` characters.
pub fn render(
    kind: Kind,
    start: Instant,
    rain: &mut Vec<String>,
    columns: u16,
    rows: u16,
    config: &Config,
) -> (lines: Vec<String>)
    ensures
        kind is Clock ==> exists|now: TimeOfDay|
            {
                &&& now.is_valid()
                &&& lines.deep_view() == frame(
                    time_block(#[trigger] clock_digits(now)),
                    final(rain).deep_view(),
                    columns,
                    rows,
                )
            },
        kind is Counter ==> exists|now: Instant|
            lines.deep_view() == frame(
                time_block(counter_digits(#[trigger] seconds_between(start, now))),
                final(rain).deep_view(),
                columns,
                rows,
            ),
        exists|draws: Seq<usize>|
            {
                &&& draws.len() == columns
                &&& forall|k: int| 0 <= k < columns ==> #[trigger] draws[k] <= config.frequency
                &&& final(rain).deep_view() == advanced(
                    old(rain).deep_view(),
                    rows as nat,
                    #[trigger] row_of(draws, *config),
                )
            },
        final(rain)@.len() == len_after_tick(old(rain)@.len(), rows as nat),
        final(rain)@.len() <= rows,
        lines@.len() == rows,
        forall|i: int| 0 <= i < rows ==> (#[trigger] lines@[i])@.len() == columns,
{
    let ghost clock = TimeOfDay { hour: 0, minute: 0, second: 0 };
    let ghost instant = start;
    let glyphs = match kind {
        Kind::Clock => {
            let now = local_time();
            proof {
                clock = now;
            }
            make_time(now)
        },
        Kind::Counter => {
            let now = Instant { millis: now_millis() };
            proof {
                instant = now;
            }
            let diff = elapsed_between(start, now);
            make_utc_time(diff)
        },
    };
    let txt = time_text(&glyphs);
    call_rain(rain, columns, rows, config);
    let lines = frame_lines(&txt, rain, columns, rows);
    proof {
        if kind is Clock {
            assert(lines.deep_view() == frame(
                time_block(clock_digits(clock)),
                rain.deep_view(),
                columns,
                rows,
            ));
        } else {
            assert(lines.deep_view() == frame(
                time_block(counter_digits(seconds_between(start, instant))),
                rain.deep_view(),
                columns,
                rows,
            ));
        }
    }
    lines
}

} // verus!
