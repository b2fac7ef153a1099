use fenrir_rs::json::{
    encode_labels, encode_optional, encode_sample, encode_samples, encode_stream, encode_streams,
    quote, serialized_event,
};
use fenrir_rs::{json_serializer, noop_serializer, Labels, Level, LogRecord, Stream};

fn labels(pairs: &[(&str, &str)]) -> Labels {
    let mut l = Labels::new();
    for (k, v) in pairs {
        l.insert(k.to_string(), v.to_string());
    }
    l
}

fn stream(pairs: &[(&str, &str)], values: &[(u128, &str)]) -> Stream {
    Stream {
        stream: labels(pairs),
        values: values.iter().map(|(t, l)| (*t, l.to_string())).collect(),
    }
}

#[test]
fn a_string_is_quoted_and_escaped() {
    assert_eq!(quote("plain").unwrap(), "\"plain\"");
    assert_eq!(quote("").unwrap(), "\"\"");
    assert_eq!(quote("say \"hi\"").unwrap(), "\"say \\\"hi\\\"\"");
    assert_eq!(quote("a\\b\nc\td").unwrap(), "\"a\\\\b\\nc\\td\"");
    assert_eq!(quote("\u{1}").unwrap(), "\"\\u0001\"");
    assert_eq!(quote("gr\u{fc}n").unwrap(), "\"gr\u{fc}n\"");
}

#[test]
fn labels_become_an_object_in_their_order() {
    assert_eq!(encode_labels(&Labels::new()).unwrap(), "{}");
    assert_eq!(
        encode_labels(&labels(&[("service", "a")])).unwrap(),
        "{\"service\":\"a\"}"
    );
    assert_eq!(
        encode_labels(&labels(&[("b", "2"), ("a", "1"), ("c", "\"")])).unwrap(),
        "{\"b\":\"2\",\"a\":\"1\",\"c\":\"\\\"\"}"
    );
}

#[test]
fn a_sample_is_an_array_of_time_and_line() {
    assert_eq!(
        encode_sample(&(1_700_000_000_123_456_789, "hello".to_string())).unwrap(),
        "[\"1700000000123456789\",\"hello\"]"
    );
    assert_eq!(encode_sample(&(0, String::new())).unwrap(), "[\"0\",\"\"]");
}

#[test]
fn samples_become_an_array_of_arrays() {
    assert_eq!(encode_samples(&Vec::new()).unwrap(), "[]");
    assert_eq!(
        encode_samples(&vec![(1, "a".to_string()), (2, "b".to_string())]).unwrap(),
        "[[\"1\",\"a\"],[\"2\",\"b\"]]"
    );
}

#[test]
fn a_stream_has_its_labels_and_its_values() {
    assert_eq!(
        encode_stream(&stream(&[("level", "WARN")], &[(3, "x"), (4, "y")])).unwrap(),
        "{\"stream\":{\"level\":\"WARN\"},\"values\":[[\"3\",\"x\"],[\"4\",\"y\"]]}"
    );
}

#[test]
fn a_batch_becomes_the_body_of_a_push_request() {
    assert_eq!(encode_streams(&Vec::new()).unwrap(), "{\"streams\":[]}");
    let batch = vec![
        stream(&[("service", "a"), ("level", "WARN")], &[(1, "one")]),
        stream(&[], &[(2, "two")]),
    ];
    let expected = "{\"streams\":[{\"stream\":{\"service\":\"a\",\"level\":\"WARN\"},\"values\":[[\"1\",\"one\"]]},{\"stream\":{},\"values\":[[\"2\",\"two\"]]}]}";
    assert_eq!(encode_streams(&batch).unwrap(), expected);
    assert_eq!(json_serializer(&batch).unwrap(), expected.as_bytes().to_vec());
}

#[test]
fn the_body_is_utf8() {
    let batch = vec![stream(&[("ort", "K\u{f6}ln")], &[(9, "\u{2713} done")])];
    assert_eq!(
        json_serializer(&batch).unwrap(),
        "{\"streams\":[{\"stream\":{\"ort\":\"K\u{f6}ln\"},\"values\":[[\"9\",\"\u{2713} done\"]]}]}"
            .as_bytes()
            .to_vec()
    );
}

#[test]
fn the_body_is_what_serde_json_reads_back() {
    let batch = vec![stream(
        &[("service", "a\"b")],
        &[(12, "line\nwith \\ and \u{7f}")],
    )];
    let body = json_serializer(&batch).unwrap();
    let value: serde_json::Value = serde_json::from_slice(&body).unwrap();
    let first = &value["streams"][0];
    assert_eq!(first["stream"]["service"].as_str(), Some("a\"b"));
    assert_eq!(first["values"][0][0].as_str(), Some("12"));
    assert_eq!(
        first["values"][0][1].as_str(),
        Some("line\nwith \\ and \u{7f}")
    );
}

#[test]
fn the_noop_serializer_gives_no_bytes() {
    assert_eq!(noop_serializer(&Vec::new()).unwrap(), Vec::<u8>::new());
    let batch = vec![stream(&[("service", "a")], &[(1, "one")])];
    assert_eq!(noop_serializer(&batch).unwrap(), Vec::<u8>::new());
}

#[test]
fn an_optional_string_is_the_string_or_null() {
    assert_eq!(encode_optional(&None).unwrap(), "null");
    assert_eq!(
        encode_optional(&Some("src/lib.rs".to_string())).unwrap(),
        "\"src/lib.rs\""
    );
}

#[test]
fn an_event_becomes_an_object_with_six_members() {
    let full = LogRecord {
        level: Level::Info,
        target: "app::db".to_string(),
        message: "connected".to_string(),
        module: Some("app::db".to_string()),
        file: Some("src/db.rs".to_string()),
        line: Some(120),
        key_values: Vec::new(),
    };
    assert_eq!(
        serialized_event(&full).unwrap(),
        "{\"file\":\"src/db.rs\",\"line\":120,\"module\":\"app::db\",\"level\":\"INFO\",\"target\":\"app::db\",\"message\":\"connected\"}"
    );
    let bare = LogRecord {
        level: Level::Trace,
        target: String::new(),
        message: String::new(),
        module: None,
        file: None,
        line: None,
        key_values: Vec::new(),
    };
    assert_eq!(
        serialized_event(&bare).unwrap(),
        "{\"file\":null,\"line\":null,\"module\":null,\"level\":\"TRACE\",\"target\":\"\",\"message\":\"\"}"
    );
}
