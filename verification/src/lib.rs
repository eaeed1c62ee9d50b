//! A chat-driven remote control for a media player: authorized chat users
//! issue `!`-prefixed commands, which are dispatched to typed handlers that
//! build control-protocol requests for the player's local IPC socket and
//! compose chat replies.

use vstd::prelude::*;

pub mod dispatch;
pub mod jokes;
pub mod laws;
pub mod protocol;
pub mod registry;
pub mod text;

verus! {

/// What `format_time` produces: `MM:SS`, or `HH:MM:SS` when the total hour
/// count is non-zero. Minutes and seconds are two zero-padded digits; hours
/// are zero-padded to at least two digits and grow unbounded.
pub open spec fn format_time_spec(s: nat) -> Seq<char> {
    let hours = (s / 60) / 60;
    let minutes = (s / 60) % 60;
    let seconds = s % 60;
    if hours > 0 {
        text::padded2_rep(hours) + ":"@ + text::two_digit_rep(minutes as int) + ":"@
            + text::two_digit_rep(seconds as int)
    } else {
        text::two_digit_rep(minutes as int) + ":"@ + text::two_digit_rep(seconds as int)
    }
}

/// Formats the time of `s` (in seconds) into a human-readable string.
/// The hour component is suppressed exactly when it is zero.
#[must_use]
pub fn format_time(s: u64) -> (r: String)
    ensures
        r@ == format_time_spec(s as nat),
{
    let hours = (s / 60) / 60;
    let minutes = (s / 60) % 60;
    let seconds = s % 60;

    if hours > 0 {
        let r = text::padded2(hours).concat(":").concat(text::two_digit(minutes).as_str())
            .concat(":").concat(text::two_digit(seconds).as_str());
        proof {
            assert(r@ =~= format_time_spec(s as nat));
        }
        r
    } else {
        let r = text::two_digit(minutes).concat(":").concat(text::two_digit(seconds).as_str());
        proof {
            assert(r@ =~= format_time_spec(s as nat));
        }
        r
    }
}

} // verus!
