use mpvbot::dispatch::{
    dispatch, on_parsed, on_response, on_send_result, loop_transition, ChatEvent, LoopState,
    Pending, Step,
};
use mpvbot::jokes::{joke_text, random_joke_index, JOKE_COUNT};
use mpvbot::registry::{authorized_from_csv, standard_registry, Command, CommandRegistry, UserSet};

fn setup() -> (CommandRegistry, UserSet) {
    (standard_registry(), authorized_from_csv("Admin,Second_User"))
}

#[test]
fn unauthorized_sender_is_ignored() {
    let (reg, users) = setup();
    // the set was lower-cased at load time; the sender's own casing must match it
    assert_eq!(dispatch(&reg, &users, "Admin", "!play"), Step::Done);
    assert_eq!(dispatch(&reg, &users, "stranger", "!play"), Step::Done);
}

#[test]
fn authorized_sender_is_lowercased_entry() {
    let (reg, users) = setup();
    assert!(users.contains("admin"));
    assert!(users.contains("second_user"));
    assert!(!users.contains("Admin"));
    let s = dispatch(&reg, &users, "admin", "!play");
    assert_eq!(
        s,
        Step::Send("{ \"command\": [\"set_property\", \"pause\", false] }".to_string())
    );
}

#[test]
fn pause_sends_fixed_payload() {
    let (reg, users) = setup();
    let s = dispatch(&reg, &users, "admin", "!pause");
    assert_eq!(
        s,
        Step::Send("{ \"command\": [\"set_property\", \"pause\", true] }".to_string())
    );
}

#[test]
fn missing_bang_is_ignored() {
    let (reg, users) = setup();
    assert_eq!(dispatch(&reg, &users, "admin", "play"), Step::Done);
    assert_eq!(dispatch(&reg, &users, "admin", "hello there !play"), Step::Done);
}

#[test]
fn unknown_trigger_is_ignored() {
    let (reg, users) = setup();
    assert_eq!(dispatch(&reg, &users, "admin", "!nope"), Step::Done);
    assert_eq!(dispatch(&reg, &users, "admin", "!"), Step::Done);
}

#[test]
fn blank_message_is_ignored() {
    let (reg, users) = setup();
    assert_eq!(dispatch(&reg, &users, "admin", "   "), Step::Done);
}

#[test]
fn rewind_with_count_queries_time_pos() {
    let (reg, users) = setup();
    let s = dispatch(&reg, &users, "admin", "!rewind 30");
    match s {
        Step::Query(p, Pending::TimeOffset { negative, seconds }) => {
            assert_eq!(p, "{ \"command\": [\"get_property\", \"time-pos\"] }");
            assert!(negative);
            assert_eq!(seconds, 30);
        }
        other => panic!("unexpected step: {:?}", other),
    }
}

#[test]
fn seek_defaults_to_ten_seconds() {
    let (reg, users) = setup();
    for msg in ["!rewind", "!rewind abc", "!forward", "!forward 70000"] {
        let s = dispatch(&reg, &users, "admin", msg);
        match s {
            Step::Query(_, Pending::TimeOffset { seconds, .. }) => assert_eq!(seconds, 10),
            other => panic!("unexpected step for {}: {:?}", msg, other),
        }
    }
}

#[test]
fn forward_is_positive_offset() {
    let (reg, users) = setup();
    let s = dispatch(&reg, &users, "admin", "!forward 5");
    match s {
        Step::Query(_, Pending::TimeOffset { negative, seconds }) => {
            assert!(!negative);
            assert_eq!(seconds, 5);
        }
        other => panic!("unexpected step: {:?}", other),
    }
}

#[test]
fn seek_target_is_current_minus_count() {
    let s = on_parsed(
        Pending::TimeOffset { negative: true, seconds: 10 },
        Some(100),
    );
    assert_eq!(
        s,
        Step::Send("{ \"command\": [\"set_property\", \"time-pos\", 90] }".to_string())
    );
}

#[test]
fn seek_target_is_current_plus_count() {
    let s = on_parsed(
        Pending::TimeOffset { negative: false, seconds: 25 },
        Some(100),
    );
    assert_eq!(
        s,
        Step::Send("{ \"command\": [\"set_property\", \"time-pos\", 125] }".to_string())
    );
}

#[test]
fn seek_can_go_negative() {
    let s = on_parsed(Pending::TimeOffset { negative: true, seconds: 30 }, Some(10));
    assert_eq!(
        s,
        Step::Send("{ \"command\": [\"set_property\", \"time-pos\", -20] }".to_string())
    );
}

#[test]
fn seek_response_is_truncated_toward_zero() {
    let s = on_response(
        Pending::TimeOffset { negative: false, seconds: 5 },
        Some("{ \"data\": 100.9 }"),
    );
    assert_eq!(
        s,
        Step::Send("{ \"command\": [\"set_property\", \"time-pos\", 105] }".to_string())
    );
}

#[test]
fn failed_read_skips_seek() {
    let p = Pending::TimeOffset { negative: true, seconds: 10 };
    assert_eq!(on_response(p, None), Step::Done);
    assert_eq!(on_response(p, Some("not json at all")), Step::Done);
    assert_eq!(on_response(p, Some("{}")), Step::Done);
    assert_eq!(on_response(p, Some("{ \"data\": \"soon\" }")), Step::Done);
}

#[test]
fn track_triggers_default_to_zero() {
    let (reg, users) = setup();
    let s = dispatch(&reg, &users, "admin", "!sub");
    assert_eq!(
        s,
        Step::Send("{ \"command\": [\"set_property\", \"sid\", 0] }".to_string())
    );
    let s = dispatch(&reg, &users, "admin", "!aud x9");
    assert_eq!(
        s,
        Step::Send("{ \"command\": [\"set_property\", \"aid\", 0] }".to_string())
    );
}

#[test]
fn track_triggers_take_valid_argument() {
    let (reg, users) = setup();
    let s = dispatch(&reg, &users, "admin", "!sub 3");
    assert_eq!(
        s,
        Step::Send("{ \"command\": [\"set_property\", \"sid\", 3] }".to_string())
    );
}

#[test]
fn vol_with_value_sends_tracked_set() {
    let (reg, users) = setup();
    let s = dispatch(&reg, &users, "admin", "!vol 55");
    match s {
        Step::SendTracked(p, v) => {
            assert_eq!(p, "{ \"command\": [\"set_property\", \"volume\", 55] }");
            assert_eq!(v, 55);
        }
        other => panic!("unexpected step: {:?}", other),
    }
}

#[test]
fn vol_set_outcome_replies() {
    assert_eq!(
        on_send_result(55, None),
        Step::Reply("(volume has been set to 55%)".to_string())
    );
    assert_eq!(
        on_send_result(55, Some("connection refused")),
        Step::Reply("failed to set volume: connection refused".to_string())
    );
}

#[test]
fn vol_without_value_reports_volume() {
    let (reg, users) = setup();
    let s = dispatch(&reg, &users, "admin", "!vol");
    match s {
        Step::Query(p, Pending::VolGet) => {
            assert_eq!(p, "{ \"command\": [\"get_property\", \"volume\"] }");
        }
        other => panic!("unexpected step: {:?}", other),
    }
    assert_eq!(
        on_response(Pending::VolGet, Some("{ \"data\": 50 }")),
        Step::Reply("volume: 50%".to_string())
    );
    assert_eq!(
        on_response(Pending::VolGet, None),
        Step::Reply("(failed to get volume information)".to_string())
    );
    assert_eq!(
        on_response(Pending::VolGet, Some("}{")),
        Step::Reply("(failed to get volume information)".to_string())
    );
}

#[test]
fn vol_report_echoes_negative_reading() {
    assert_eq!(
        on_response(Pending::VolGet, Some("{ \"data\": -5 }")),
        Step::Reply("volume: -5%".to_string())
    );
}

#[test]
fn vol_with_invalid_value_reads_instead() {
    let (reg, users) = setup();
    let s = dispatch(&reg, &users, "admin", "!vol loud");
    assert!(matches!(s, Step::Query(_, Pending::VolGet)));
}

#[test]
fn pos_runs_two_queries_then_replies() {
    let (reg, users) = setup();
    let s = dispatch(&reg, &users, "admin", "!pos");
    match s {
        Step::Query(p, Pending::PosTime) => {
            assert_eq!(p, "{ \"command\": [\"get_property\", \"time-pos\"] }");
        }
        other => panic!("unexpected step: {:?}", other),
    }
    let s = on_response(Pending::PosTime, Some("{ \"data\": 65.9 }"));
    match s {
        Step::Query(p, Pending::PosDuration { time_pos }) => {
            assert_eq!(p, "{ \"command\": [\"get_property\", \"duration\"] }");
            assert_eq!(time_pos, 65);
        }
        other => panic!("unexpected step: {:?}", other),
    }
    let s = on_response(Pending::PosDuration { time_pos: 65 }, Some("{ \"data\": 3661.2 }"));
    assert_eq!(s, Step::Reply("01:05 / 01:01:01 (59:56 remaining)".to_string()));
}

#[test]
fn pos_skips_silently_on_failed_reads() {
    assert_eq!(on_response(Pending::PosTime, None), Step::Done);
    assert_eq!(on_response(Pending::PosTime, Some("oops")), Step::Done);
    assert_eq!(on_response(Pending::PosDuration { time_pos: 65 }, None), Step::Done);
}

#[test]
fn joke_replies_with_a_list_entry() {
    let (reg, users) = setup();
    let mut entries = Vec::new();
    for i in 0..JOKE_COUNT {
        entries.push(joke_text(i));
    }
    for _ in 0..50 {
        let s = dispatch(&reg, &users, "admin", "!joke");
        match s {
            Step::Reply(text) => assert!(entries.contains(&text)),
            other => panic!("unexpected step: {:?}", other),
        }
    }
}

#[test]
fn joke_index_is_always_in_range() {
    for _ in 0..200 {
        assert!(random_joke_index() < JOKE_COUNT);
    }
}

#[test]
fn registry_lookup_is_exact() {
    let reg = standard_registry();
    assert_eq!(reg.get("!play"), Some(Command::Play));
    assert_eq!(reg.get("!joke"), Some(Command::Joke));
    assert_eq!(reg.get("!nope"), None);
    assert_eq!(reg.get("play"), None);
}

#[test]
fn registry_last_binding_wins() {
    let mut reg = standard_registry();
    reg.add_command("!play", Command::Pause);
    assert_eq!(reg.get("!play"), Some(Command::Pause));
}

#[test]
fn loop_terminates_exactly_on_quit_or_eof() {
    assert_eq!(loop_transition(&ChatEvent::Quit), LoopState::Terminated);
    assert_eq!(loop_transition(&ChatEvent::Eof), LoopState::Terminated);
    assert_eq!(loop_transition(&ChatEvent::Other), LoopState::Running);
    let m = ChatEvent::Message { sender: "admin".to_string(), text: "!play".to_string() };
    assert_eq!(loop_transition(&m), LoopState::Running);
}

#[test]
fn leading_whitespace_is_skipped() {
    let (reg, users) = setup();
    let s = dispatch(&reg, &users, "admin", "  \t !play now");
    assert_eq!(
        s,
        Step::Send("{ \"command\": [\"set_property\", \"pause\", false] }".to_string())
    );
}

#[test]
fn empty_csv_pieces_do_not_authorize_named_senders() {
    let reg = standard_registry();
    let users = authorized_from_csv("a,,b");
    assert!(users.contains(""));
    assert!(users.contains("a"));
    assert!(users.contains("b"));
    assert_eq!(dispatch(&reg, &users, "c", "!play"), Step::Done);
}
