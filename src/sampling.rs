use vstd::prelude::*;

use rand::seq::SliceRandom;

verus! {

/// The sum of the weights of `items`.
pub open spec fn total_weight(items: Seq<(char, u32)>) -> nat
    decreases items.len(),
{
    if items.len() == 0 {
        0
    } else {
        total_weight(items.drop_last()) + items.last().1 as nat
    }
}

/// `c` is the character of one of `items` whose weight is positive.
pub open spec fn drawable(items: Seq<(char, u32)>, c: char) -> bool {
    exists|i: int| 0 <= i < items.len() && items[i].0 == c && items[i].1 > 0
}

/// Draws the character of one of `items` at random, with a likelihood
/// proportional to its weight.
/// Relies on rand's `SliceRandom::choose_weighted` with `thread_rng`: on a
/// non-empty slice whose weights sum to a positive total that fits in the
/// weight type, it returns one of the items, never one of weight zero (it
/// returns the first item whose running weight total exceeds a value drawn
/// from `0..total`).
#[verifier::external_body]
pub(crate) fn choose_weighted_char(items: &Vec<(char, u32)>) -> (r: char)
    requires
        items@.len() > 0,
        0 < total_weight(items@) <= u32::MAX,
    ensures
        drawable(items@, r),
{
    let mut rng = rand::thread_rng();
    items.choose_weighted(&mut rng, |item| item.1).unwrap().0
}

/// Appends `c` to `s`.
/// Relies on `String::push`, which appends one character.
#[verifier::external_body]
pub(crate) fn push_char(s: &mut String, c: char)
    ensures
        final(s)@ == old(s)@.push(c),
{
    s.push(c);
}

} // verus!
