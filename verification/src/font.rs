//! The font table: one pixel matrix for each decimal digit and one for the
//! colon between the digit pairs.

use vstd::prelude::*;

verus! {

/// A matrix of pixel codes, one slice per row: 0 is empty, 1 is the primary
/// fill and 2 the secondary fill.
pub type Glyph = &'static [&'static [u8]];

/// Rows of every glyph.
pub const GLYPH_HEIGHT: usize = 5;

/// Columns of a digit glyph.
pub const DIGIT_WIDTH: usize = 5;

/// Columns of the colon glyph.
pub const COLON_WIDTH: usize = 3;

/// Whether `m` has exactly `rows` rows of exactly `cols` pixels each.
pub open spec fn is_matrix(m: Seq<Seq<u8>>, rows: nat, cols: nat) -> bool {
    &&& m.len() == rows
    &&& forall|r: int| 0 <= r < m.len() ==> (#[trigger] m[r]).len() == cols
}

/// The pixels of the glyph that shows the digit `d`; no pixels at all for a
/// value that is not a decimal digit.
#[verifier::opaque]
pub open spec fn digit_pixels(d: nat) -> Seq<Seq<u8>> {
    if d == 0 {
        seq![
            seq![1u8, 1, 1, 1, 1],
            seq![1u8, 1, 0, 1, 1],
            seq![1u8, 1, 0, 1, 1],
            seq![1u8, 1, 0, 1, 1],
            seq![1u8, 1, 1, 1, 1],
        ]
    } else if d == 1 {
        seq![
            seq![0u8, 0, 1, 1, 0],
            seq![0u8, 0, 1, 1, 0],
            seq![0u8, 0, 1, 1, 0],
            seq![0u8, 0, 1, 1, 0],
            seq![0u8, 0, 1, 1, 0],
        ]
    } else if d == 2 {
        seq![
            seq![1u8, 1, 1, 1, 1],
            seq![0u8, 0, 0, 1, 1],
            seq![1u8, 1, 1, 1, 1],
            seq![1u8, 1, 0, 0, 0],
            seq![1u8, 1, 1, 1, 1],
        ]
    } else if d == 3 {
        seq![
            seq![1u8, 1, 1, 1, 1],
            seq![0u8, 0, 0, 1, 1],
            seq![1u8, 1, 1, 1, 1],
            seq![0u8, 0, 0, 1, 1],
            seq![1u8, 1, 1, 1, 1],
        ]
    } else if d == 4 {
        seq![
            seq![1u8, 1, 0, 1, 1],
            seq![1u8, 1, 0, 1, 1],
            seq![1u8, 1, 1, 1, 1],
            seq![0u8, 0, 0, 1, 1],
            seq![0u8, 0, 0, 1, 1],
        ]
    } else if d == 5 {
        seq![
            seq![1u8, 1, 1, 1, 1],
            seq![1u8, 1, 0, 0, 0],
            seq![1u8, 1, 1, 1, 1],
            seq![0u8, 0, 0, 1, 1],
            seq![1u8, 1, 1, 1, 1],
        ]
    } else if d == 6 {
        seq![
            seq![1u8, 1, 1, 1, 1],
            seq![1u8, 1, 0, 0, 0],
            seq![1u8, 1, 1, 1, 1],
            seq![1u8, 1, 0, 1, 1],
            seq![1u8, 1, 1, 1, 1],
        ]
    } else if d == 7 {
        seq![
            seq![1u8, 1, 1, 1, 1],
            seq![1u8, 1, 0, 1, 1],
            seq![0u8, 0, 0, 1, 1],
            seq![0u8, 0, 0, 1, 1],
            seq![0u8, 0, 0, 1, 1],
        ]
    } else if d == 8 {
        seq![
            seq![1u8, 1, 1, 1, 1],
            seq![1u8, 1, 0, 1, 1],
            seq![1u8, 1, 1, 1, 1],
            seq![1u8, 1, 0, 1, 1],
            seq![1u8, 1, 1, 1, 1],
        ]
    } else if d == 9 {
        seq![
            seq![1u8, 1, 1, 1, 1],
            seq![1u8, 1, 0, 1, 1],
            seq![1u8, 1, 1, 1, 1],
            seq![0u8, 0, 0, 1, 1],
            seq![1u8, 1, 1, 1, 1],
        ]
    } else {
        Seq::empty()
    }
}

/// The pixels of the colon glyph: two dots of the secondary fill.
pub open spec fn colon_pixels() -> Seq<Seq<u8>> {
    seq![
        seq![0u8, 0, 0],
        seq![0u8, 2, 0],
        seq![0u8, 0, 0],
        seq![0u8, 2, 0],
        seq![0u8, 0, 0],
    ]
}

/// Every digit glyph is a matrix of `GLYPH_HEIGHT` rows and `DIGIT_WIDTH`
/// columns, and the colon glyph one of `GLYPH_HEIGHT` rows and `COLON_WIDTH`
/// columns.
pub proof fn lemma_glyph_geometry(d: nat)
    requires
        d <= 9,
    ensures
        is_matrix(digit_pixels(d), GLYPH_HEIGHT as nat, DIGIT_WIDTH as nat),
        is_matrix(colon_pixels(), GLYPH_HEIGHT as nat, COLON_WIDTH as nat),
{
    reveal(digit_pixels);
}

/// Every pixel of every glyph is one of the three pixel codes.
pub proof fn lemma_glyph_codes(d: nat, r: int, c: int)
    requires
        d <= 9,
        0 <= r < GLYPH_HEIGHT,
    ensures
        0 <= c < DIGIT_WIDTH ==> digit_pixels(d)[r][c] <= 1,
        0 <= c < COLON_WIDTH ==> colon_pixels()[r][c] == 0 || colon_pixels()[r][c] == 2,
{
    reveal(digit_pixels);
}

/// The glyph of the decimal digit `num`.
pub fn num_to_arrays(num: u32) -> (g: Glyph)
    requires
        num <= 9,
    ensures
        g.deep_view() == digit_pixels(num as nat),
        is_matrix(g.deep_view(), GLYPH_HEIGHT as nat, DIGIT_WIDTH as nat),
{
    let g: Glyph = match num {
        1 => &[
            &[0, 0, 1, 1, 0],
            &[0, 0, 1, 1, 0],
            &[0, 0, 1, 1, 0],
            &[0, 0, 1, 1, 0],
            &[0, 0, 1, 1, 0],
        ],
        2 => &[
            &[1, 1, 1, 1, 1],
            &[0, 0, 0, 1, 1],
            &[1, 1, 1, 1, 1],
            &[1, 1, 0, 0, 0],
            &[1, 1, 1, 1, 1],
        ],
        3 => &[
            &[1, 1, 1, 1, 1],
            &[0, 0, 0, 1, 1],
            &[1, 1, 1, 1, 1],
            &[0, 0, 0, 1, 1],
            &[1, 1, 1, 1, 1],
        ],
        4 => &[
            &[1, 1, 0, 1, 1],
            &[1, 1, 0, 1, 1],
            &[1, 1, 1, 1, 1],
            &[0, 0, 0, 1, 1],
            &[0, 0, 0, 1, 1],
        ],
        5 => &[
            &[1, 1, 1, 1, 1],
            &[1, 1, 0, 0, 0],
            &[1, 1, 1, 1, 1],
            &[0, 0, 0, 1, 1],
            &[1, 1, 1, 1, 1],
        ],
        6 => &[
            &[1, 1, 1, 1, 1],
            &[1, 1, 0, 0, 0],
            &[1, 1, 1, 1, 1],
            &[1, 1, 0, 1, 1],
            &[1, 1, 1, 1, 1],
        ],
        7 => &[
            &[1, 1, 1, 1, 1],
            &[1, 1, 0, 1, 1],
            &[0, 0, 0, 1, 1],
            &[0, 0, 0, 1, 1],
            &[0, 0, 0, 1, 1],
        ],
        8 => &[
            &[1, 1, 1, 1, 1],
            &[1, 1, 0, 1, 1],
            &[1, 1, 1, 1, 1],
            &[1, 1, 0, 1, 1],
            &[1, 1, 1, 1, 1],
        ],
        9 => &[
            &[1, 1, 1, 1, 1],
            &[1, 1, 0, 1, 1],
            &[1, 1, 1, 1, 1],
            &[0, 0, 0, 1, 1],
            &[1, 1, 1, 1, 1],
        ],
        _ => &[
            &[1, 1, 1, 1, 1],
            &[1, 1, 0, 1, 1],
            &[1, 1, 0, 1, 1],
            &[1, 1, 0, 1, 1],
            &[1, 1, 1, 1, 1],
        ],
    };
    assert(g.deep_view() =~~= digit_pixels(num as nat)) by {
        reveal(digit_pixels);
    }
    proof {
        lemma_glyph_geometry(num as nat);
    }
    g
}

/// The colon glyph.
pub fn colon() -> (g: Glyph)
    ensures
        g.deep_view() == colon_pixels(),
        is_matrix(g.deep_view(), GLYPH_HEIGHT as nat, COLON_WIDTH as nat),
{
    let g: Glyph = &[&[0, 0, 0], &[0, 2, 0], &[0, 0, 0], &[0, 2, 0], &[0, 0, 0]];
    assert(g.deep_view() =~~= colon_pixels());
    g
}

} // verus!
