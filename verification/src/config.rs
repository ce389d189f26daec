//! The settings of one run: how long a tick lasts and how the rain looks.

use vstd::prelude::*;

verus! {

/// Settings that stay fixed for a whole run.
#[derive(Clone, Copy, Debug, PartialEq, Eq)]
pub struct Config {
    /// Length of one tick in milliseconds.
    pub interval: u64,
    /// Upper end of the range a rain cell's draw is taken from; the larger it
    /// is, the sparser the rain.
    pub frequency: usize,
    /// Character of a rain cell whose draw is 0.
    pub rain1: char,
    /// Character of a rain cell whose draw is 1.
    pub rain2: char,
}

impl Default for Config {
    /// A tick of 100 ms, draws from 0 to 40, a thin vertical bar for the
    /// first rain character and a blank for the second.
    fn default() -> (c: Self)
        ensures
            c.interval == 100,
            c.frequency == 40,
            c.rain1 == '│',
            c.rain2 == ' ',
    {
        Config { interval: 100, frequency: 40, rain1: '│', rain2: ' ' }
    }
}

} // verus!
