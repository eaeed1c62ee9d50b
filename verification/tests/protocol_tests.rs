use mpvbot::protocol::{
    get_property_payload, response_data_bool, response_data_i64, response_data_u64,
    response_data_whole, set_property_payload,
};

#[test]
fn get_payload_matches_wire_format() {
    assert_eq!(
        get_property_payload("time-pos"),
        "{ \"command\": [\"get_property\", \"time-pos\"] }"
    );
    assert_eq!(
        get_property_payload("duration"),
        "{ \"command\": [\"get_property\", \"duration\"] }"
    );
}

#[test]
fn set_payload_matches_wire_format() {
    assert_eq!(
        set_property_payload("pause", "false"),
        "{ \"command\": [\"set_property\", \"pause\", false] }"
    );
    assert_eq!(
        set_property_payload("volume", "55"),
        "{ \"command\": [\"set_property\", \"volume\", 55] }"
    );
}

#[test]
fn malformed_responses_yield_no_value() {
    for resp in ["", "{", "not json", "[1,", "{ \"data\": }"] {
        assert_eq!(response_data_i64(resp), None);
        assert_eq!(response_data_u64(resp), None);
        assert_eq!(response_data_bool(resp), None);
        assert_eq!(response_data_whole(resp), None);
    }
}

#[test]
fn missing_or_mistyped_data_yields_no_value() {
    assert_eq!(response_data_i64("{}"), None);
    assert_eq!(response_data_i64("{ \"error\": \"success\" }"), None);
    assert_eq!(response_data_i64("{ \"data\": \"text\" }"), None);
    assert_eq!(response_data_bool("{ \"data\": 1 }"), None);
    assert_eq!(response_data_i64("{ \"data\": 1.5 }"), None);
}

#[test]
fn typed_data_is_extracted() {
    assert_eq!(response_data_i64("{ \"data\": -3 }"), Some(-3));
    assert_eq!(response_data_u64("{ \"data\": 42 }"), Some(42));
    assert_eq!(response_data_bool("{ \"data\": true }"), Some(true));
    assert_eq!(response_data_whole("{ \"data\": 12.75 }"), Some(12));
    assert_eq!(response_data_whole("{ \"data\": -0.5 }"), Some(0));
    assert_eq!(response_data_whole("{ \"data\": 42 }"), Some(42));
}
