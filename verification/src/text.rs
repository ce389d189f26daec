//! Lines of text measured in characters: blank runs, and fitting a line to a
//! width by cutting it or filling it up with blanks.

use vstd::prelude::*;

verus! {

/// `String::push` of the standard library appends the one character `ch` to
/// the end of the string and leaves what was there before untouched.
pub assume_specification[ String::push ](s: &mut String, ch: char)
    ensures
        final(s)@ == old(s)@.push(ch),
;

/// A run of `n` blanks.
pub open spec fn blanks(n: nat) -> Seq<char> {
    Seq::new(n, |i: int| ' ')
}

/// The line `s` brought to exactly `width` characters: cut after `width`
/// characters where it is longer, filled up with blanks where it is shorter.
pub open spec fn fitted(s: Seq<char>, width: nat) -> Seq<char> {
    if s.len() >= width {
        s.take(width as int)
    } else {
        s + blanks((width - s.len()) as nat)
    }
}

/// A fitted line has exactly the width asked for, and starts with as much of
/// the line as the width leaves room for.
pub proof fn lemma_fitted(s: Seq<char>, width: nat)
    ensures
        fitted(s, width).len() == width,
        forall|i: int| 0 <= i < width && i < s.len() ==> fitted(s, width)[i] == s[i],
        forall|i: int| s.len() <= i < width ==> fitted(s, width)[i] == ' ',
{
}

/// Appends `n` blanks to `s`.
pub fn push_blanks(s: &mut String, n: usize)
    ensures
        final(s)@ == old(s)@ + blanks(n as nat),
{
    let mut i: usize = 0;
    while i < n
        invariant
            i <= n,
            s@ == old(s)@ + blanks(i as nat),
        decreases n - i,
    {
        s.push(' ');
        i += 1;
        assert(s@ =~= old(s)@ + blanks(i as nat));
    }
}

/// The line `s`, moved right by `indent` blanks and then fitted to `width`
/// characters.
pub fn fit_line(s: &str, indent: usize, width: usize) -> (r: String)
    ensures
        r@ == fitted(blanks(indent as nat) + s@, width as nat),
        r@.len() == width,
{
    let ghost whole = blanks(indent as nat) + s@;
    let lead: usize = if indent < width { indent } else { width };
    let mut r = String::new();
    push_blanks(&mut r, lead);
    let mut count: usize = lead;
    assert(r@ =~= whole.take(count as int));
    for c in iter: s.chars()
        invariant
            iter.seq() == s@,
            whole == blanks(indent as nat) + s@,
            count <= width,
            count == if indent + iter.index() < width { indent + iter.index() } else { width as int },
            r@ == whole.take(count as int),
    {
        if count < width {
            assert(whole[count as int] == c);
            r.push(c);
            count += 1;
            assert(r@ =~= whole.take(count as int));
        }
    }
    let rest: usize = width - count;
    push_blanks(&mut r, rest);
    assert(r@ =~= fitted(whole, width as nat));
    r
}

} // verus!
