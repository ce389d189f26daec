//! Joining six digit glyphs and two colons into the time block, and turning
//! its pixels into characters.

use vstd::prelude::*;
use crate::font::{
    colon, colon_pixels, is_matrix, lemma_glyph_geometry, Glyph, COLON_WIDTH, DIGIT_WIDTH,
    GLYPH_HEIGHT,
};
use crate::formatter::{
    digit_glyphs, digit_sequence, digits_of, glyphs_of, lemma_digits_are_decimal,
};

verus! {

/// Columns of the time block.
pub const TIME_WIDTH: u16 = 39;

/// Lines of the time block.
pub const TIME_HEIGHT: u16 = 5;

/// Character of a pixel of the primary fill.
pub const ATOM1: char = '█';

/// Character of a pixel of the secondary fill.
pub const ATOM2: char = '■';

/// Row `i` of the time block: the six glyphs' rows in order, an empty column
/// after the first glyph of each pair and the colon's row between the pairs.
pub open spec fn joined_row(glyphs: Seq<Seq<Seq<u8>>>, i: int) -> Seq<u8> {
    glyphs[0][i] + seq![0u8] + glyphs[1][i] + colon_pixels()[i]
        + glyphs[2][i] + seq![0u8] + glyphs[3][i] + colon_pixels()[i]
        + glyphs[4][i] + seq![0u8] + glyphs[5][i]
}

/// The pixels of the time block made of the first six of `glyphs`.
pub open spec fn joined(glyphs: Seq<Seq<Seq<u8>>>) -> Seq<Seq<u8>> {
    Seq::new(GLYPH_HEIGHT as nat, |i: int| joined_row(glyphs, i))
}

/// The character that shows a pixel code: the primary block for 1, the
/// secondary block for 2, a blank for anything else.
pub open spec fn pixel_char(code: u8) -> char {
    if code == 1 {
        ATOM1
    } else if code == 2 {
        ATOM2
    } else {
        ' '
    }
}

/// A row of pixels as a line of text.
pub open spec fn row_text(row: Seq<u8>) -> Seq<char> {
    Seq::new(row.len(), |j: int| pixel_char(row[j]))
}

/// Rows of pixels as lines of text.
pub open spec fn block_text(rows: Seq<Seq<u8>>) -> Seq<Seq<char>> {
    Seq::new(rows.len(), |i: int| row_text(rows[i]))
}

/// The time block that shows the digits `digits`, as lines of text.
pub open spec fn time_block(digits: Seq<nat>) -> Seq<Seq<char>> {
    block_text(joined(glyphs_of(digits)))
}

/// Whether `lines` are exactly `height` lines of exactly `width` characters.
pub open spec fn is_block(lines: Seq<Seq<char>>, height: nat, width: nat) -> bool {
    &&& lines.len() == height
    &&& forall|i: int| 0 <= i < lines.len() ==> (#[trigger] lines[i]).len() == width
}

/// The size of the time block follows from the glyphs' geometry: it is as
/// high as a glyph, and as wide as six digits, two colons and the three
/// empty columns together.
pub proof fn lemma_block_size_from_geometry()
    ensures
        TIME_HEIGHT == GLYPH_HEIGHT,
        TIME_WIDTH == 6 * DIGIT_WIDTH + 2 * COLON_WIDTH + 3,
{
}

/// Six glyphs of the digits' geometry, joined, give `TIME_HEIGHT` rows of
/// `TIME_WIDTH` pixels, and as text as many lines of as many characters.
pub proof fn lemma_joined_size(glyphs: Seq<Seq<Seq<u8>>>)
    requires
        glyphs.len() >= 6,
        forall|k: int|
            0 <= k < 6 ==> is_matrix(#[trigger] glyphs[k], GLYPH_HEIGHT as nat, DIGIT_WIDTH as nat),
    ensures
        is_matrix(joined(glyphs), TIME_HEIGHT as nat, TIME_WIDTH as nat),
        is_block(block_text(joined(glyphs)), TIME_HEIGHT as nat, TIME_WIDTH as nat),
{
    assert forall|i: int| 0 <= i < GLYPH_HEIGHT implies (#[trigger] joined(glyphs)[i]).len()
        == TIME_WIDTH by {
        assert(is_matrix(glyphs[0], GLYPH_HEIGHT as nat, DIGIT_WIDTH as nat));
        assert(is_matrix(glyphs[1], GLYPH_HEIGHT as nat, DIGIT_WIDTH as nat));
        assert(is_matrix(glyphs[2], GLYPH_HEIGHT as nat, DIGIT_WIDTH as nat));
        assert(is_matrix(glyphs[3], GLYPH_HEIGHT as nat, DIGIT_WIDTH as nat));
        assert(is_matrix(glyphs[4], GLYPH_HEIGHT as nat, DIGIT_WIDTH as nat));
        assert(is_matrix(glyphs[5], GLYPH_HEIGHT as nat, DIGIT_WIDTH as nat));
        assert(glyphs[0][i].len() == DIGIT_WIDTH);
        assert(glyphs[1][i].len() == DIGIT_WIDTH);
        assert(glyphs[2][i].len() == DIGIT_WIDTH);
        assert(glyphs[3][i].len() == DIGIT_WIDTH);
        assert(glyphs[4][i].len() == DIGIT_WIDTH);
        assert(glyphs[5][i].len() == DIGIT_WIDTH);
        assert(colon_pixels()[i].len() == COLON_WIDTH);
    }
}

/// For every hour, minute and second below 100, the time block of their
/// digits has exactly `TIME_HEIGHT` lines of exactly `TIME_WIDTH` characters.
pub proof fn lemma_time_block_size(hour: nat, minute: nat, second: nat)
    requires
        hour < 100,
        minute < 100,
        second < 100,
    ensures
        is_block(
            time_block(digit_sequence(hour, minute, second)),
            TIME_HEIGHT as nat,
            TIME_WIDTH as nat,
        ),
{
    let digits = digit_sequence(hour, minute, second);
    lemma_digits_are_decimal(hour, minute, second);
    assert forall|k: int| 0 <= k < 6 implies is_matrix(
        #[trigger] glyphs_of(digits)[k],
        GLYPH_HEIGHT as nat,
        DIGIT_WIDTH as nat,
    ) by {
        assert(digits[k] <= 9);
        lemma_glyph_geometry(digits[k]);
    }
    lemma_joined_size(glyphs_of(digits));
}

fn append_row(line: &mut Vec<u8>, row: &[u8])
    ensures
        final(line)@ == old(line)@ + row@,
{
    let mut j: usize = 0;
    while j < row.len()
        invariant
            j <= row@.len(),
            line@ == old(line)@ + row@.take(j as int),
        decreases row@.len() - j,
    {
        line.push(row[j]);
        j += 1;
        assert(line@ =~= old(line)@ + row@.take(j as int));
    }
    assert(row@.take(row@.len() as int) =~= row@);
}

/// The pixel rows of the time block that shows the six glyphs `nums[0]` to
/// `nums[5]`.
pub fn concat_nums(nums: &[&[&[u8]]]) -> (rows: Vec<Vec<u8>>)
    requires
        nums@.len() >= 6,
        forall|k: int| 0 <= k < 6 ==> (#[trigger] nums@[k])@.len() >= GLYPH_HEIGHT,
    ensures
        rows.deep_view() == joined(nums.deep_view()),
{
    let num1 = nums[0];
    let num2 = nums[1];
    let num3 = nums[2];
    let num4 = nums[3];
    let num5 = nums[4];
    let num6 = nums[5];
    let dots = colon();

    let mut result: Vec<Vec<u8>> = Vec::new();
    let mut i: usize = 0;
    while i < GLYPH_HEIGHT
        invariant
            i <= GLYPH_HEIGHT,
            nums@.len() >= 6,
            forall|k: int| 0 <= k < 6 ==> (#[trigger] nums@[k])@.len() >= GLYPH_HEIGHT,
            num1 == nums@[0],
            num2 == nums@[1],
            num3 == nums@[2],
            num4 == nums@[3],
            num5 == nums@[4],
            num6 == nums@[5],
            dots.deep_view() == colon_pixels(),
            result@.len() == i,
            forall|r: int| 0 <= r < i ==> (#[trigger] result@[r])@ == joined_row(nums.deep_view(), r),
        decreases GLYPH_HEIGHT - i,
    {
        assert(dots.deep_view().len() == GLYPH_HEIGHT);
        let mut line: Vec<u8> = Vec::new();
        append_row(&mut line, num1[i]);
        line.push(0);
        append_row(&mut line, num2[i]);
        append_row(&mut line, dots[i]);
        append_row(&mut line, num3[i]);
        line.push(0);
        append_row(&mut line, num4[i]);
        append_row(&mut line, dots[i]);
        append_row(&mut line, num5[i]);
        line.push(0);
        append_row(&mut line, num6[i]);
        assert(line@ =~= joined_row(nums.deep_view(), i as int)) by {
            assert(dots.deep_view()[i as int] == colon_pixels()[i as int]);
            assert(dots@[i as int]@ =~= dots.deep_view()[i as int]);
            assert forall|k: int| 0 <= k < 6 implies (#[trigger] nums@[k])@[i as int]@
                =~= nums.deep_view()[k][i as int] by {
            }
        }
        result.push(line);
        i += 1;
    }
    assert(result.deep_view() =~~= joined(nums.deep_view()));
    result
}

/// The lines of text that show the pixel rows `num`.
pub fn generate_string_array(num: Vec<Vec<u8>>) -> (lines: Vec<String>)
    ensures
        lines.deep_view() == block_text(num.deep_view()),
{
    let mut result: Vec<String> = Vec::new();
    let mut i: usize = 0;
    while i < num.len()
        invariant
            i <= num@.len(),
            result@.len() == i,
            forall|r: int| 0 <= r < i ==> (#[trigger] result@[r])@ == row_text(num@[r]@),
        decreases num@.len() - i,
    {
        let nums = &num[i];
        let mut line = String::new();
        let mut j: usize = 0;
        while j < nums.len()
            invariant
                j <= nums@.len(),
                line@ == row_text(nums@.take(j as int)),
            decreases nums@.len() - j,
        {
            let code = nums[j];
            if code == 1 {
                line.push(ATOM1);
            } else if code == 2 {
                line.push(ATOM2);
            } else {
                line.push(' ');
            }
            j += 1;
            assert(line@ =~= row_text(nums@.take(j as int)));
        }
        assert(nums@.take(nums@.len() as int) =~= nums@);
        result.push(line);
        i += 1;
    }
    assert(result.deep_view() =~~= block_text(num.deep_view()));
    result
}

/// The time block that shows six decimal digits: the glyphs of the digits
/// joined with the colons, as lines of text.
pub fn compose(digits: &[u32; 6]) -> (lines: Vec<String>)
    requires
        forall|k: int| 0 <= k < 6 ==> #[trigger] digits[k] <= 9,
    ensures
        lines.deep_view() == time_block(digits_of(digits@)),
        is_block(lines.deep_view(), TIME_HEIGHT as nat, TIME_WIDTH as nat),
        lines@.len() == TIME_HEIGHT,
{
    let glyphs = digit_glyphs(digits);
    let lines = time_text(&glyphs);
    proof {
        let shown = digits_of(digits@);
        assert forall|k: int| 0 <= k < 6 implies is_matrix(
            #[trigger] glyphs_of(shown)[k],
            GLYPH_HEIGHT as nat,
            DIGIT_WIDTH as nat,
        ) by {
            assert(shown[k] == digits[k] as nat);
            lemma_glyph_geometry(shown[k]);
        }
        lemma_joined_size(glyphs_of(shown));
    }
    lines
}

/// The lines of text of the time block made of the six glyphs `glyphs`.
pub fn time_text(glyphs: &Vec<Glyph>) -> (lines: Vec<String>)
    requires
        glyphs@.len() >= 6,
        forall|k: int| 0 <= k < 6 ==> (#[trigger] glyphs@[k])@.len() >= GLYPH_HEIGHT,
    ensures
        lines.deep_view() == block_text(joined(glyphs.deep_view())),
        lines@.len() == TIME_HEIGHT,
{
    let six = glyphs.as_slice();
    assert(six.deep_view() =~= glyphs.deep_view());
    let rows = concat_nums(six);
    let lines = generate_string_array(rows);
    assert(lines@.len() == lines.deep_view().len());
    lines
}

} // verus!
