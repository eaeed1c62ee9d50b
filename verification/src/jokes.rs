//! The fixed joke list and the random draw over it.

use vstd::prelude::*;

verus! {

/// How many jokes the bot knows.
pub const JOKE_COUNT: u16 = 5;

/// The joke at a given index.
pub open spec fn joke_spec(i: int) -> Seq<char> {
    if i == 0 {
        "I told my subwoofer a secret. It could not keep the bass down."@
    } else if i == 1 {
        "I would tell you a UDP joke, but you might not get it."@
    } else if i == 2 {
        "The playlist broke up with the shuffle button. It needed some order in its life."@
    } else if i == 3 {
        "Why did the video pause at the top of the hill? It needed a break."@
    } else {
        "My volume knob asked for a raise. I turned it down."@
    }
}

/// The joke at index `i`, for indices below `JOKE_COUNT`.
pub fn joke_text(i: u16) -> (r: String)
    requires
        i < JOKE_COUNT,
    ensures
        r@ == joke_spec(i as int),
{
    if i == 0 {
        "I told my subwoofer a secret. It could not keep the bass down.".to_owned()
    } else if i == 1 {
        "I would tell you a UDP joke, but you might not get it.".to_owned()
    } else if i == 2 {
        "The playlist broke up with the shuffle button. It needed some order in its life.".to_owned()
    } else if i == 3 {
        "Why did the video pause at the top of the hill? It needed a break.".to_owned()
    } else {
        "My volume knob asked for a raise. I turned it down.".to_owned()
    }
}

/// Relies on rand::random_range over `0..n`: a uniform draw that is always
/// strictly below `n`; the range must be non-empty.
#[verifier::external_body]
fn random_below(n: u16) -> (r: u16)
    requires
        n >= 1,
    ensures
        r < n,
{
    rand::random_range(0..n)
}

/// Draws a joke index uniformly; always in range.
pub fn random_joke_index() -> (r: u16)
    ensures
        r < JOKE_COUNT,
{
    random_below(JOKE_COUNT)
}

} // verus!
