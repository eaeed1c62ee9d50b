//! The dispatch engine's guarantees, stated as standalone laws over the
//! specification functions that the executable contracts use.

use vstd::prelude::*;
use crate::dispatch::{
    CmdArgs, Pending, StepModel, dispatch_spec, extract_args_spec, handler_step_spec,
    offset_target_spec, on_parsed_spec, vol_set_reply_spec,
};
use crate::dispatch::parse_opt_spec;
use crate::jokes;
use crate::protocol;
use crate::registry::{Command, lowered_set};
use crate::text;

verus! {

/// A trigger that is not in the registry is discarded: no reply, no request
/// to the player.
pub proof fn lemma_unknown_trigger_is_ignored(
    reg: Map<Seq<char>, Command>,
    users: Set<Seq<char>>,
    sender: Seq<char>,
    msg: Seq<char>,
    j: u16,
)
    requires
        match text::first_token(msg) {
            Option::Some(tok) => !reg.dom().contains(tok),
            Option::None => true,
        },
    ensures
        dispatch_spec(reg, users, sender, msg, j) == StepModel::Done,
{
}

/// A message whose first token lacks the leading '!' is discarded with no
/// side effects, whoever sent it.
pub proof fn lemma_no_bang_is_ignored(
    reg: Map<Seq<char>, Command>,
    users: Set<Seq<char>>,
    sender: Seq<char>,
    msg: Seq<char>,
    tok: Seq<char>,
    j: u16,
)
    requires
        text::first_token(msg) == Option::Some(tok),
        tok.len() == 0 || tok[0] != '!',
    ensures
        dispatch_spec(reg, users, sender, msg, j) == StepModel::Done,
{
}

/// An unauthorized sender is discarded before anything else is looked at.
pub proof fn lemma_unauthorized_is_ignored(
    reg: Map<Seq<char>, Command>,
    users: Set<Seq<char>>,
    sender: Seq<char>,
    msg: Seq<char>,
    j: u16,
)
    requires
        !users.contains(sender),
    ensures
        dispatch_spec(reg, users, sender, msg, j) == StepModel::Done,
{
}

/// Authorization is exact-match against the lower-cased configured names: a
/// sender equal to no lower-cased entry is rejected, however it is cased.
pub proof fn lemma_authorization_exact(
    reg: Map<Seq<char>, Command>,
    pieces: Seq<Seq<char>>,
    sender: Seq<char>,
    msg: Seq<char>,
    j: u16,
)
    requires
        forall|i: int| 0 <= i < pieces.len() ==> text::lower(#[trigger] pieces[i]) != sender,
    ensures
        dispatch_spec(reg, lowered_set(pieces), sender, msg, j) == StepModel::Done,
{
    assert(!lowered_set(pieces).contains(sender));
}

/// A seek trigger with a missing or unparsable count uses exactly ten
/// seconds; a track trigger falls back to track zero.
pub proof fn lemma_extraction_defaults(tok: Seq<char>, second: Option<Seq<char>>, j: u16)
    requires
        match second {
            Option::Some(t) => text::parse_u16_spec(t) == Option::<u16>::None,
            Option::None => true,
        },
    ensures
        tok == "!rewind"@ || tok == "!forward"@ ==> extract_args_spec(tok, second, j)
            == CmdArgs::U16(10),
        tok == "!sub"@ || tok == "!aud"@ ==> extract_args_spec(tok, second, j) == CmdArgs::U16(0),
        tok == "!vol"@ ==> extract_args_spec(tok, second, j) == CmdArgs::NoArg,
{
    reveal_strlit("!rewind");
    reveal_strlit("!forward");
    reveal_strlit("!sub");
    reveal_strlit("!aud");
    reveal_strlit("!joke");
    reveal_strlit("!vol");
    assert("!rewind"@.len() == 7 && "!forward"@.len() == 8 && "!sub"@.len() == 4
        && "!aud"@.len() == 4 && "!joke"@.len() == 5 && "!vol"@.len() == 4);
    assert("!sub"@[1] == 's' && "!aud"@[1] == 'a' && "!vol"@[1] == 'v');
}

/// A seek trigger with a valid count asks the player for the current time
/// position, remembering the count and the seek's direction exactly.
pub proof fn lemma_seek_request(
    reg: Map<Seq<char>, Command>,
    users: Set<Seq<char>>,
    sender: Seq<char>,
    msg: Seq<char>,
    tok: Seq<char>,
    n: u16,
    j: u16,
)
    requires
        users.contains(sender),
        text::first_token(msg) == Option::Some(tok),
        tok == "!rewind"@ || tok == "!forward"@,
        reg.dom().contains(tok),
        reg[tok] == (if tok == "!rewind"@ {
            Command::Rewind
        } else {
            Command::Forward
        }),
        parse_opt_spec(text::second_token(msg)) == Option::Some(n),
    ensures
        dispatch_spec(reg, users, sender, msg, j) == StepModel::Query(
            protocol::get_payload_spec("time-pos"@),
            (Pending::TimeOffset { negative: tok == "!rewind"@, seconds: n }),
        ),
{
    reveal_strlit("!rewind");
    reveal_strlit("!forward");
    assert(tok[0] == '!');
    assert(extract_args_spec(tok, text::second_token(msg), j) == CmdArgs::U16(n));
}

/// A valid seek count lands exactly at the current position offset by the
/// count, subtracted for a rewind and added for a forward seek.
pub proof fn lemma_seek_target(t: i64, negative: bool, n: u16)
    requires
        negative ==> i64::MIN <= t - n,
        !negative ==> t + n <= i64::MAX,
    ensures
        on_parsed_spec((Pending::TimeOffset { negative, seconds: n }), Option::Some(t))
            == StepModel::Send(
            protocol::set_payload_spec(
                "time-pos"@,
                text::signed_dec_rep(
                    if negative {
                        t - n
                    } else {
                        t + n
                    },
                ),
            ),
        ),
{
    assert(offset_target_spec(t as int, negative, n) == if negative {
        t - n
    } else {
        t + n
    });
}

/// A failed or malformed property read skips the seek and the position
/// report entirely: no set-request and no reply are produced.
pub proof fn lemma_read_failure_is_silent(negative: bool, seconds: u16, time_pos: u64)
    ensures
        on_parsed_spec((Pending::TimeOffset { negative, seconds }), Option::<i64>::None)
            == StepModel::Done,
        on_parsed_spec(Pending::PosTime, Option::<i64>::None) == StepModel::Done,
        on_parsed_spec((Pending::PosDuration { time_pos }), Option::<i64>::None)
            == StepModel::Done,
{
}

/// A track trigger with no usable argument sets its track property to
/// exactly zero.
pub proof fn lemma_track_zero()
    ensures
        handler_step_spec(Command::Sub, CmdArgs::U16(0)) == StepModel::Send(
            protocol::set_payload_spec("sid"@, "0"@),
        ),
        handler_step_spec(Command::Aud, CmdArgs::U16(0)) == StepModel::Send(
            protocol::set_payload_spec("aid"@, "0"@),
        ),
{
    reveal_strlit("0");
    assert(text::dec_rep(0) =~= "0"@);
}

/// A joke draw is always strictly below the joke count, and the reply is
/// the list's entry at the drawn index.
pub proof fn lemma_joke_reply(
    reg: Map<Seq<char>, Command>,
    users: Set<Seq<char>>,
    sender: Seq<char>,
    msg: Seq<char>,
    j: u16,
)
    requires
        users.contains(sender),
        text::first_token(msg) == Option::Some("!joke"@),
        reg.dom().contains("!joke"@),
        reg["!joke"@] == Command::Joke,
        j < jokes::JOKE_COUNT,
    ensures
        dispatch_spec(reg, users, sender, msg, j) == StepModel::Reply(jokes::joke_spec(j as int)),
{
    reveal_strlit("!rewind");
    reveal_strlit("!forward");
    reveal_strlit("!sub");
    reveal_strlit("!aud");
    reveal_strlit("!joke");
    reveal_strlit("!vol");
    assert("!joke"@[0] == '!');
    assert(extract_args_spec("!joke"@, text::second_token(msg), j) == CmdArgs::U16(j));
}

/// A successful volume read is reported as `volume: {value}%`, echoing the
/// reading as is, and a successful volume set as
/// `(volume has been set to {value}%)`.
pub proof fn lemma_volume_replies(x: i64, v: u16)
    ensures
        on_parsed_spec(Pending::VolGet, Option::Some(x)) == StepModel::Reply(
            "volume: "@ + text::signed_dec_rep(x as int) + "%"@,
        ),
        vol_set_reply_spec(v, Option::<Seq<char>>::None) == "(volume has been set to "@
            + text::dec_rep(v as nat) + "%)"@,
{
}

} // verus!
