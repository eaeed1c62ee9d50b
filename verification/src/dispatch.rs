//! The dispatch engine: authorizes the sender, tokenizes the message,
//! resolves the trigger, extracts the trigger's typed argument and turns the
//! bound handler into outward behavior.
//!
//! Every outward effect is data: a `Step` tells the surrounding program what
//! to send over the player's control socket and what to reply in chat. A
//! property read comes back as a raw response text, which `on_response`
//! resumes from; a tracked set-request's outcome is resumed by
//! `on_send_result`.

use vstd::prelude::*;
use crate::jokes;
use crate::protocol;
use crate::registry::{Command, CommandRegistry, UserSet, registry_contents, user_set_contents};
use crate::text;

verus! {

/// The typed argument extracted for a handler: a 16-bit value or nothing.
#[derive(Clone, Copy, PartialEq, Eq, Structural, Debug)]
pub enum CmdArgs {
    U16(u16),
    NoArg,
}

/// What an outstanding property read will be used for.
#[derive(Clone, Copy, PartialEq, Eq, Structural, Debug)]
pub enum Pending {
    /// Seek relative to the current time position.
    TimeOffset { negative: bool, seconds: u16 },
    /// The time position, first half of the position report.
    PosTime,
    /// The duration, second half of the position report.
    PosDuration { time_pos: u64 },
    /// The current volume, to be reported in chat.
    VolGet,
}

/// One step of outward behavior, to be performed by the surrounding program.
#[derive(PartialEq, Eq, Debug)]
pub enum Step {
    /// Nothing to do.
    Done,
    /// Send this request to the player and ignore the response.
    Send(String),
    /// Write this reply to chat.
    Reply(String),
    /// Send this request to the player and resume with the response text
    /// through `on_response`.
    Query(String, Pending),
    /// Send this request, which sets the volume to the carried value, and
    /// resume with the outcome through `on_send_result`.
    SendTracked(String, u16),
}

/// The ghost image of a `Step`, with texts as character sequences.
pub enum StepModel {
    Done,
    Send(Seq<char>),
    Reply(Seq<char>),
    Query(Seq<char>, Pending),
    SendTracked(Seq<char>, u16),
}

impl View for Step {
    type V = StepModel;

    open spec fn view(&self) -> StepModel {
        match self {
            Step::Done => StepModel::Done,
            Step::Send(p) => StepModel::Send(p@),
            Step::Reply(m) => StepModel::Reply(m@),
            Step::Query(p, w) => StepModel::Query(p@, *w),
            Step::SendTracked(p, v) => StepModel::SendTracked(p@, *v),
        }
    }
}

/// The parse of an optional token.
pub open spec fn parse_opt_spec(t: Option<Seq<char>>) -> Option<u16> {
    match t {
        Option::Some(x) => text::parse_u16_spec(x),
        Option::None => Option::None,
    }
}

/// The per-trigger argument-extraction rule, applied to the token after the
/// trigger. Seek triggers default to ten seconds, track triggers to track
/// zero; the volume trigger keeps absence, and the joke trigger takes the
/// drawn index.
pub open spec fn extract_args_spec(tok: Seq<char>, second: Option<Seq<char>>, joke_idx: u16) -> CmdArgs {
    if tok == "!rewind"@ || tok == "!forward"@ {
        CmdArgs::U16(match parse_opt_spec(second) {
            Option::Some(v) => v,
            Option::None => 10,
        })
    } else if tok == "!sub"@ || tok == "!aud"@ {
        CmdArgs::U16(match parse_opt_spec(second) {
            Option::Some(v) => v,
            Option::None => 0,
        })
    } else if tok == "!joke"@ {
        CmdArgs::U16(joke_idx)
    } else if tok == "!vol"@ {
        match parse_opt_spec(second) {
            Option::Some(v) => CmdArgs::U16(v),
            Option::None => CmdArgs::NoArg,
        }
    } else {
        CmdArgs::NoArg
    }
}

/// What each handler does with its extracted argument.
pub open spec fn handler_step_spec(c: Command, a: CmdArgs) -> StepModel {
    match c {
        Command::Play => StepModel::Send(protocol::set_payload_spec("pause"@, "false"@)),
        Command::Pause => StepModel::Send(protocol::set_payload_spec("pause"@, "true"@)),
        Command::Rewind => match a {
            CmdArgs::U16(n) => StepModel::Query(
                protocol::get_payload_spec("time-pos"@),
                Pending::TimeOffset { negative: true, seconds: n },
            ),
            CmdArgs::NoArg => StepModel::Done,
        },
        Command::Forward => match a {
            CmdArgs::U16(n) => StepModel::Query(
                protocol::get_payload_spec("time-pos"@),
                Pending::TimeOffset { negative: false, seconds: n },
            ),
            CmdArgs::NoArg => StepModel::Done,
        },
        Command::Pos => StepModel::Query(protocol::get_payload_spec("time-pos"@), Pending::PosTime),
        Command::Sub => match a {
            CmdArgs::U16(n) => StepModel::Send(
                protocol::set_payload_spec("sid"@, text::dec_rep(n as nat)),
            ),
            CmdArgs::NoArg => StepModel::Done,
        },
        Command::Aud => match a {
            CmdArgs::U16(n) => StepModel::Send(
                protocol::set_payload_spec("aid"@, text::dec_rep(n as nat)),
            ),
            CmdArgs::NoArg => StepModel::Done,
        },
        Command::Vol => match a {
            CmdArgs::U16(n) => StepModel::SendTracked(
                protocol::set_payload_spec("volume"@, text::dec_rep(n as nat)),
                n,
            ),
            CmdArgs::NoArg => StepModel::Query(
                protocol::get_payload_spec("volume"@),
                Pending::VolGet,
            ),
        },
        Command::Joke => match a {
            CmdArgs::U16(i) => if i < jokes::JOKE_COUNT {
                StepModel::Reply(jokes::joke_spec(i as int))
            } else {
                StepModel::Done
            },
            CmdArgs::NoArg => StepModel::Done,
        },
    }
}

/// The whole per-event decision: an unauthorized sender, an empty message, a
/// first token without the leading '!' and an unknown trigger are all
/// discarded with no outward effect.
pub open spec fn dispatch_spec(
    reg: Map<Seq<char>, Command>,
    users: Set<Seq<char>>,
    sender: Seq<char>,
    msg: Seq<char>,
    joke_idx: u16,
) -> StepModel {
    if !users.contains(sender) {
        StepModel::Done
    } else {
        match text::first_token(msg) {
            Option::None => StepModel::Done,
            Option::Some(tok) => if tok.len() == 0 || tok[0] != '!' {
                StepModel::Done
            } else if !reg.dom().contains(tok) {
                StepModel::Done
            } else {
                handler_step_spec(reg[tok], extract_args_spec(tok, text::second_token(msg), joke_idx))
            },
        }
    }
}

/// Runs one handler on its extracted argument.
pub fn handler_step(c: Command, a: CmdArgs) -> (s: Step)
    ensures
        s@ == handler_step_spec(c, a),
{
    match c {
        Command::Play => Step::Send(protocol::set_property_payload("pause", "false")),
        Command::Pause => Step::Send(protocol::set_property_payload("pause", "true")),
        Command::Rewind => match a {
            CmdArgs::U16(n) => Step::Query(
                protocol::get_property_payload("time-pos"),
                Pending::TimeOffset { negative: true, seconds: n },
            ),
            CmdArgs::NoArg => Step::Done,
        },
        Command::Forward => match a {
            CmdArgs::U16(n) => Step::Query(
                protocol::get_property_payload("time-pos"),
                Pending::TimeOffset { negative: false, seconds: n },
            ),
            CmdArgs::NoArg => Step::Done,
        },
        Command::Pos => Step::Query(protocol::get_property_payload("time-pos"), Pending::PosTime),
        Command::Sub => match a {
            CmdArgs::U16(n) => Step::Send(
                protocol::set_property_payload("sid", text::u64_to_dec(n as u64).as_str()),
            ),
            CmdArgs::NoArg => Step::Done,
        },
        Command::Aud => match a {
            CmdArgs::U16(n) => Step::Send(
                protocol::set_property_payload("aid", text::u64_to_dec(n as u64).as_str()),
            ),
            CmdArgs::NoArg => Step::Done,
        },
        Command::Vol => match a {
            CmdArgs::U16(n) => Step::SendTracked(
                protocol::set_property_payload("volume", text::u64_to_dec(n as u64).as_str()),
                n,
            ),
            CmdArgs::NoArg => Step::Query(protocol::get_property_payload("volume"), Pending::VolGet),
        },
        Command::Joke => match a {
            CmdArgs::U16(i) => if i < jokes::JOKE_COUNT {
                Step::Reply(jokes::joke_text(i))
            } else {
                Step::Done
            },
            CmdArgs::NoArg => Step::Done,
        },
    }
}

/// Dispatches one chat message: authorization, tokenization, trigger lookup,
/// argument extraction and handler invocation. The drawn joke index is the
/// one unknown: every other part of the result is fixed by the inputs.
pub fn dispatch(reg: &CommandRegistry, users: &UserSet, sender: &str, msg: &str) -> (s: Step)
    ensures
        exists|j: u16|
            j < jokes::JOKE_COUNT && s@ == dispatch_spec(
                registry_contents(reg),
                user_set_contents(users),
                sender@,
                msg@,
                j,
            ),
        !user_set_contents(users).contains(sender@) ==> s == Step::Done,
{
    if !users.contains(sender) {
        proof {
            assert(dispatch_spec(
                registry_contents(reg),
                user_set_contents(users),
                sender@,
                msg@,
                0,
            ) == StepModel::Done);
        }
        return Step::Done;
    }
    let first = text::next_token(msg, 0);
    match first {
        Option::None => {
            proof {
                assert(dispatch_spec(
                    registry_contents(reg),
                    user_set_contents(users),
                    sender@,
                    msg@,
                    0,
                ) == StepModel::Done);
            }
            Step::Done
        },
        Option::Some((tok, e1)) => {
            if tok.as_str().get_char(0) != '!' {
                proof {
                    assert(dispatch_spec(
                        registry_contents(reg),
                        user_set_contents(users),
                        sender@,
                        msg@,
                        0,
                    ) == StepModel::Done);
                }
                return Step::Done;
            }
            match reg.get(tok.as_str()) {
                Option::None => {
                    proof {
                        assert(dispatch_spec(
                            registry_contents(reg),
                            user_set_contents(users),
                            sender@,
                            msg@,
                            0,
                        ) == StepModel::Done);
                    }
                    Step::Done
                },
                Option::Some(cmd) => {
                    let second = text::next_token(msg, e1);
                    let parsed: Option<u16> = match &second {
                        Option::Some((t2, _)) => text::parse_u16(t2.as_str()),
                        Option::None => Option::None,
                    };
                    proof {
                        assert(parsed == parse_opt_spec(text::second_token(msg@)));
                    }
                    let ghost jd: u16 = 0;
                    let args: CmdArgs;
                    if text::str_eq(tok.as_str(), "!rewind") || text::str_eq(
                        tok.as_str(),
                        "!forward",
                    ) {
                        args = CmdArgs::U16(
                            match parsed {
                                Option::Some(v) => v,
                                Option::None => 10,
                            },
                        );
                    } else if text::str_eq(tok.as_str(), "!sub") || text::str_eq(
                        tok.as_str(),
                        "!aud",
                    ) {
                        args = CmdArgs::U16(
                            match parsed {
                                Option::Some(v) => v,
                                Option::None => 0,
                            },
                        );
                    } else if text::str_eq(tok.as_str(), "!joke") {
                        let ji = jokes::random_joke_index();
                        proof {
                            jd = ji;
                        }
                        args = CmdArgs::U16(ji);
                    } else if text::str_eq(tok.as_str(), "!vol") {
                        args = match parsed {
                            Option::Some(v) => CmdArgs::U16(v),
                            Option::None => CmdArgs::NoArg,
                        };
                    } else {
                        args = CmdArgs::NoArg;
                    }
                    proof {
                        assert(args == extract_args_spec(tok@, text::second_token(msg@), jd));
                    }
                    let s = handler_step(cmd, args);
                    proof {
                        assert(s@ == dispatch_spec(
                            registry_contents(reg),
                            user_set_contents(users),
                            sender@,
                            msg@,
                            jd,
                        ));
                    }
                    s
                },
            }
        },
    }
}

/// Where the seek lands: the current position offset by the given seconds,
/// held to the 64-bit signed range.
pub open spec fn offset_target_spec(t: int, negative: bool, seconds: u16) -> int {
    let raw = if negative {
        t - seconds
    } else {
        t + seconds
    };
    if raw < i64::MIN {
        i64::MIN as int
    } else if raw > i64::MAX {
        i64::MAX as int
    } else {
        raw
    }
}

/// A reported count of seconds, with negative readings taken as zero.
pub open spec fn clamp_low_spec(t: i64) -> u64 {
    if t < 0 {
        0
    } else {
        t as u64
    }
}

/// The position report: elapsed / total (left remaining).
pub open spec fn pos_reply_spec(time_pos: u64, duration: u64) -> Seq<char> {
    crate::format_time_spec(time_pos as nat) + " / "@ + crate::format_time_spec(duration as nat)
        + " ("@ + crate::format_time_spec(
        if duration >= time_pos {
            (duration - time_pos) as nat
        } else {
            0
        },
    ) + " remaining)"@
}

/// What each pending read does with the value it waited for; no value means
/// the read failed, which skips the action (except for the volume report,
/// which replies with a fixed failure line).
pub open spec fn on_parsed_spec(p: Pending, v: Option<i64>) -> StepModel {
    match p {
        Pending::TimeOffset { negative, seconds } => match v {
            Option::None => StepModel::Done,
            Option::Some(t) => StepModel::Send(
                protocol::set_payload_spec(
                    "time-pos"@,
                    text::signed_dec_rep(offset_target_spec(t as int, negative, seconds)),
                ),
            ),
        },
        Pending::PosTime => match v {
            Option::None => StepModel::Done,
            Option::Some(t) => StepModel::Query(
                protocol::get_payload_spec("duration"@),
                Pending::PosDuration { time_pos: clamp_low_spec(t) },
            ),
        },
        Pending::PosDuration { time_pos } => match v {
            Option::None => StepModel::Done,
            Option::Some(d) => StepModel::Reply(pos_reply_spec(time_pos, clamp_low_spec(d))),
        },
        Pending::VolGet => match v {
            Option::None => StepModel::Reply("(failed to get volume information)"@),
            Option::Some(x) => StepModel::Reply(
                "volume: "@ + text::signed_dec_rep(x as int) + "%"@,
            ),
        },
    }
}

/// Resumes a pending read from the value it waited for.
pub fn on_parsed(p: Pending, v: Option<i64>) -> (s: Step)
    ensures
        s@ == on_parsed_spec(p, v),
{
    match p {
        Pending::TimeOffset { negative, seconds } => match v {
            Option::None => Step::Done,
            Option::Some(t) => {
                let target: i64 = if negative {
                    if t >= i64::MIN + seconds as i64 {
                        t - seconds as i64
                    } else {
                        i64::MIN
                    }
                } else {
                    if t <= i64::MAX - seconds as i64 {
                        t + seconds as i64
                    } else {
                        i64::MAX
                    }
                };
                proof {
                    assert(target as int == offset_target_spec(t as int, negative, seconds));
                }
                Step::Send(
                    protocol::set_property_payload("time-pos", text::i64_to_dec(target).as_str()),
                )
            },
        },
        Pending::PosTime => match v {
            Option::None => Step::Done,
            Option::Some(t) => {
                let tp: u64 = if t < 0 {
                    0
                } else {
                    t as u64
                };
                Step::Query(
                    protocol::get_property_payload("duration"),
                    Pending::PosDuration { time_pos: tp },
                )
            },
        },
        Pending::PosDuration { time_pos } => match v {
            Option::None => Step::Done,
            Option::Some(d) => {
                let dur: u64 = if d < 0 {
                    0
                } else {
                    d as u64
                };
                let rem: u64 = if dur >= time_pos {
                    dur - time_pos
                } else {
                    0
                };
                let r = crate::format_time(time_pos).concat(" / ").concat(
                    crate::format_time(dur).as_str(),
                ).concat(" (").concat(crate::format_time(rem).as_str()).concat(" remaining)");
                proof {
                    assert(r@ =~= pos_reply_spec(time_pos, clamp_low_spec(d)));
                }
                Step::Reply(r)
            },
        },
        Pending::VolGet => match v {
            Option::None => Step::Reply("(failed to get volume information)".to_owned()),
            Option::Some(x) => {
                let r = "volume: ".to_owned().concat(text::i64_to_dec(x).as_str()).concat("%");
                proof {
                    assert(r@ =~= "volume: "@ + text::signed_dec_rep(x as int) + "%"@);
                }
                Step::Reply(r)
            },
        },
    }
}

/// Resumes a pending read from the raw response text; no text means the
/// transport failed. A malformed response acts as a failed read: it never
/// produces a seek or a second query.
pub fn on_response(p: Pending, resp: Option<&str>) -> (s: Step)
    ensures
        match resp {
            Option::None => s@ == on_parsed_spec(p, Option::<i64>::None),
            Option::Some(r) => s@ == on_parsed_spec(p, protocol::data_whole_of(r@))
                && (protocol::data_whole_of(r@).is_some() ==> protocol::json_parse_ok(r@)),
        },
{
    match resp {
        Option::None => on_parsed(p, Option::None),
        Option::Some(r) => on_parsed(p, protocol::response_data_whole(r)),
    }
}

/// The volume set-request's chat confirmation: success confirms the value,
/// failure carries the transport error's text.
pub open spec fn vol_set_reply_spec(value: u16, err: Option<Seq<char>>) -> Seq<char> {
    match err {
        Option::None => "(volume has been set to "@ + text::dec_rep(value as nat) + "%)"@,
        Option::Some(e) => "failed to set volume: "@ + e,
    }
}

/// Resumes a tracked volume set-request from its outcome.
pub fn on_send_result(value: u16, err: Option<&str>) -> (s: Step)
    ensures
        ({
            let e = match err {
                Option::Some(x) => Option::Some(x@),
                Option::None => Option::<Seq<char>>::None,
            };
            s@ == StepModel::Reply(vol_set_reply_spec(value, e))
        }),
{
    match err {
        Option::None => {
            let r = "(volume has been set to ".to_owned().concat(
                text::u64_to_dec(value as u64).as_str(),
            ).concat("%)");
            proof {
                assert(r@ =~= vol_set_reply_spec(value, Option::<Seq<char>>::None));
            }
            Step::Reply(r)
        },
        Option::Some(e) => {
            let r = "failed to set volume: ".to_owned().concat(e);
            proof {
                assert(r@ =~= vol_set_reply_spec(value, Option::Some(e@)));
            }
            Step::Reply(r)
        },
    }
}

/// An incoming unit of the chat stream, as the dispatch loop sees it.
pub enum ChatEvent {
    /// A chat message from a named sender.
    Message { sender: String, text: String },
    /// The session asked to quit.
    Quit,
    /// The stream ended.
    Eof,
    /// Anything else; ignored.
    Other,
}

/// The dispatch loop's state.
#[derive(Clone, Copy, PartialEq, Eq, Structural, Debug)]
pub enum LoopState {
    Running,
    Terminated,
}

/// Whether an event ends the dispatch loop.
pub open spec fn terminal_event_spec(ev: &ChatEvent) -> bool {
    match ev {
        ChatEvent::Quit => true,
        ChatEvent::Eof => true,
        _ => false,
    }
}

/// The loop's transition on one event: it terminates exactly on a quit
/// signal or the end of the stream.
pub fn loop_transition(ev: &ChatEvent) -> (st: LoopState)
    ensures
        (st == LoopState::Terminated) == terminal_event_spec(ev),
        (st == LoopState::Running) == !terminal_event_spec(ev),
{
    match ev {
        ChatEvent::Quit => LoopState::Terminated,
        ChatEvent::Eof => LoopState::Terminated,
        _ => LoopState::Running,
    }
}

} // verus!
