use multicast_dispatch::gateway::parse_http_port;
use multicast_dispatch::gateway::parse_u16;
use multicast_dispatch::gateway::split_path_predicate;
use multicast_dispatch::gateway::to_json;
use multicast_dispatch::gateway::Reply;

#[test]
fn bare_port_gets_default_host() {
    assert_eq!(parse_http_port("8000"), "0.0.0.0:8000");
    assert_eq!(parse_http_port("80"), "0.0.0.0:80");
    assert_eq!(parse_http_port("0"), "0.0.0.0:0");
    assert_eq!(parse_http_port("65535"), "0.0.0.0:65535");
    // a leading plus sign is part of a well-formed unsigned number
    assert_eq!(parse_http_port("+80"), "0.0.0.0:+80");
    assert_eq!(parse_http_port("0080"), "0.0.0.0:0080");
}

#[test]
fn bare_host_gets_default_port() {
    assert_eq!(parse_http_port("myhost"), "myhost:8000");
    assert_eq!(parse_http_port(""), ":8000");
    // out of the 16-bit range, so read as a host name
    assert_eq!(parse_http_port("65536"), "65536:8000");
    assert_eq!(parse_http_port("-1"), "-1:8000");
    assert_eq!(parse_http_port("+"), "+:8000");
    assert_eq!(parse_http_port("12a"), "12a:8000");
}

#[test]
fn host_and_port_pass_through() {
    assert_eq!(parse_http_port("192.168.0.1:7000"), "192.168.0.1:7000");
    assert_eq!(parse_http_port("localhost:8000"), "localhost:8000");
    assert_eq!(parse_http_port(":"), ":");
    assert_eq!(parse_http_port("a:b:c"), "a:b:c");
}

#[test]
fn parse_u16_accepts_the_16_bit_range() {
    assert_eq!(parse_u16("0"), Some(0));
    assert_eq!(parse_u16("8000"), Some(8000));
    assert_eq!(parse_u16("65535"), Some(65535));
    assert_eq!(parse_u16("+65535"), Some(65535));
    assert_eq!(parse_u16("000000000080"), Some(80));
}

#[test]
fn parse_u16_rejects_everything_else() {
    assert_eq!(parse_u16(""), None);
    assert_eq!(parse_u16("+"), None);
    assert_eq!(parse_u16("65536"), None);
    assert_eq!(parse_u16("99999999999999999999"), None);
    assert_eq!(parse_u16("-1"), None);
    assert_eq!(parse_u16("12a"), None);
    assert_eq!(parse_u16(" 80"), None);
    assert_eq!(parse_u16("8 0"), None);
}

#[test]
fn request_path_without_question_mark_has_empty_predicate() {
    let (path, predicate) = split_path_predicate("/demo/a");
    assert_eq!(path, "/demo/a");
    assert_eq!(predicate, "");
}

#[test]
fn request_path_splits_at_the_first_question_mark() {
    let (path, predicate) = split_path_predicate("/demo/a?x>5");
    assert_eq!(path, "/demo/a");
    assert_eq!(predicate, "x>5");
}

#[test]
fn predicate_ends_at_the_second_question_mark() {
    let (path, predicate) = split_path_predicate("/demo/a?x?y");
    assert_eq!(path, "/demo/a");
    assert_eq!(predicate, "x");
    let (path, predicate) = split_path_predicate("?p");
    assert_eq!(path, "");
    assert_eq!(predicate, "p");
    let (path, predicate) = split_path_predicate("a?");
    assert_eq!(path, "a");
    assert_eq!(predicate, "");
}

#[test]
fn to_json_of_no_replies_is_an_empty_array() {
    assert_eq!(to_json(&vec![]), "[\n\n]");
    assert_eq!(to_json(&vec![Reply::Other, Reply::Other]), "[\n\n]");
}

#[test]
fn to_json_renders_one_entry() {
    let replies = vec![Reply::Data {
        key: String::from("/demo/a"),
        value: String::from("hello"),
    }];
    assert_eq!(
        to_json(&replies),
        "[\n{ \"key\": \"/demo/a\",\n  \"value\": \"hello\",\n  \"time\": \"None\" }\n]"
    );
}

#[test]
fn to_json_joins_entries_and_skips_replies_without_data() {
    let replies = vec![
        Reply::Other,
        Reply::Data { key: String::from("k1"), value: String::from("v1") },
        Reply::Other,
        Reply::Data { key: String::from("k2"), value: String::from("v2") },
    ];
    assert_eq!(
        to_json(&replies),
        "[\n{ \"key\": \"k1\",\n  \"value\": \"v1\",\n  \"time\": \"None\" },\n{ \"key\": \"k2\",\n  \"value\": \"v2\",\n  \"time\": \"None\" }\n]"
    );
}
