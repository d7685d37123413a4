use bytes::Bytes;
use fetchttp::{FetchError, ReadableStream};
use serde_json::{Number, Value};

fn object(pairs: &[(&str, Value)]) -> Value {
    let mut map = serde_json::Map::new();
    for (k, v) in pairs {
        map.insert(k.to_string(), v.clone());
    }
    Value::Object(map)
}

fn type_message<T>(r: Result<T, FetchError>) -> String {
    match r {
        Err(FetchError::Type(e)) => e.message().to_string(),
        Err(other) => panic!("another kind of failure: {}", other.to_string()),
        Ok(_) => panic!("succeeded"),
    }
}

#[test]
fn test_readable_stream_text() {
    let stream = ReadableStream::from_text("Hello, World!");
    let text = stream.text().unwrap();
    assert_eq!(text, "Hello, World!");
}

#[test]
fn test_readable_stream_bytes() {
    let data = vec![1, 2, 3, 4, 5];
    let stream = ReadableStream::from_bytes(Bytes::from(data.clone()));
    let bytes = stream.array_buffer().unwrap();
    assert_eq!(bytes.to_vec(), data);
}

#[test]
fn test_readable_stream_json() {
    let value = object(&[
        ("key", Value::String("value".to_string())),
        ("number", Value::Number(Number::from(42))),
    ]);
    let stream = ReadableStream::from_json(&value);
    let parsed: Value = stream.json().unwrap();
    assert_eq!(parsed["key"], "value");
    assert_eq!(parsed["number"], 42);
}

#[test]
fn test_readable_stream_empty() {
    let stream = ReadableStream::empty();
    let text = stream.text().unwrap();
    assert_eq!(text, "");
}

#[test]
fn test_readable_stream_blob() {
    let data = vec![1, 2, 3, 4];
    let stream = ReadableStream::from_bytes(Bytes::from(data.clone()));
    let blob = stream.blob().unwrap();
    assert_eq!(blob.to_vec(), data);
}

#[test]
fn test_readable_stream_form_data() {
    let stream = ReadableStream::from_text("form data");
    let form = stream.form_data().unwrap();
    assert_eq!(form, "form data");
}

#[test]
fn test_readable_stream_locked() {
    let stream = ReadableStream::from_text("test");
    assert!(!stream.locked());
}

#[test]
fn test_readable_stream_from_conversions() {
    let _stream1 = ReadableStream::from("text");
    let _stream2 = ReadableStream::from(String::from("text"));
    let _stream3 = ReadableStream::from(Bytes::from(vec![1, 2, 3]));
    let _stream4 = ReadableStream::from(vec![1, 2, 3]);
    let _stream5 = ReadableStream::from(object(&[("key", Value::String("value".to_string()))]));
}

#[test]
fn test_get_content_type() {
    let empty = ReadableStream::empty();
    assert_eq!(empty.get_content_type(), None);

    let text = ReadableStream::from_text("hello");
    assert_eq!(text.get_content_type(), Some("text/plain;charset=UTF-8"));

    let bytes = ReadableStream::from_bytes(Bytes::from(vec![1, 2, 3]));
    assert_eq!(bytes.get_content_type(), None);

    let json = ReadableStream::from_json(&object(&[]));
    assert_eq!(json.get_content_type(), Some("application/json"));
}

#[test]
fn test_to_bytes() {
    let text = ReadableStream::from_text("hello");
    let bytes = text.to_bytes().unwrap();
    assert_eq!(bytes, "hello".as_bytes());

    let json = ReadableStream::from_json(&object(&[("key", Value::String("value".to_string()))]));
    let bytes = json.to_bytes().unwrap();
    let parsed: Value = serde_json::from_slice(&bytes).unwrap();
    assert_eq!(parsed["key"], "value");
}

#[test]
fn body_test_body_already_used_error() {
    let stream = ReadableStream::from_text("test");
    let _text = stream.text().unwrap();

    // Create a new stream to test the error
    let mut stream = ReadableStream::from_text("test");
    let _ = stream.read_text(); // Mark as used by reading it once

    let result = stream.text();
    assert!(result.is_err());
    assert!(matches!(result.unwrap_err(), FetchError::Type(_)));
}

#[test]
fn body_test_json_empty_body_error() {
    let stream = ReadableStream::empty();
    let result: Result<Value, FetchError> = stream.json();
    assert!(result.is_err());
    assert!(matches!(result.unwrap_err(), FetchError::Type(_)));
}

#[test]
fn test_invalid_utf8_error() {
    // Create bytes that are not valid UTF-8
    let invalid_utf8 = vec![0xFF, 0xFE, 0xFD];
    let stream = ReadableStream::from_bytes(Bytes::from(invalid_utf8));

    let result = stream.text();
    assert!(result.is_err());
    assert!(matches!(result.unwrap_err(), FetchError::Type(_)));
}

fn read(stream: &mut ReadableStream, op: usize) -> Result<(), FetchError> {
    match op {
        0 => stream.read_text().map(|_| ()),
        1 => stream.read_bytes().map(|_| ()),
        2 => stream.read_json().map(|_| ()),
        _ => stream.read_form_data().map(|_| ()),
    }
}

#[test]
fn every_reading_after_a_reading_fails() {
    for first in 0..4 {
        for second in 0..4 {
            let mut stream = ReadableStream::from_text("{\"a\":1}");
            assert!(!stream.is_used());
            assert!(read(&mut stream, first).is_ok(), "{} {}", first, second);
            assert!(stream.is_used());
            assert_eq!(
                type_message(read(&mut stream, second)),
                "Body already used",
                "{} {}",
                first,
                second
            );
            assert!(stream.is_used());
        }
    }
}

#[test]
fn every_reading_after_a_failed_reading_fails() {
    for second in 0..4 {
        // reading JSON from no content fails
        let mut stream = ReadableStream::empty();
        assert_eq!(
            type_message(stream.read_json()),
            "Unexpected end of JSON input"
        );
        assert!(stream.is_used());
        assert_eq!(type_message(read(&mut stream, second)), "Body already used");

        // reading bytes that are no UTF-8 as a text fails
        let mut stream = ReadableStream::from_bytes(Bytes::from(vec![0xC3, 0x28]));
        assert_eq!(type_message(stream.read_text()), "Invalid UTF-8");
        assert!(stream.is_used());
        assert_eq!(type_message(read(&mut stream, second)), "Body already used");
    }
}

#[test]
fn by_value_readings_of_a_used_stream_fail() {
    let used = || {
        let mut stream = ReadableStream::from_text("x");
        stream.read_text().unwrap();
        stream
    };
    assert_eq!(type_message(used().text()), "Body already used");
    assert_eq!(type_message(used().array_buffer()), "Body already used");
    assert_eq!(type_message(used().blob()), "Body already used");
    assert_eq!(type_message(used().json()), "Body already used");
    assert_eq!(type_message(used().form_data()), "Body already used");
}

#[test]
fn bytes_of_each_kind_of_content() {
    assert_eq!(ReadableStream::empty().array_buffer().unwrap().to_vec(), Vec::<u8>::new());
    assert_eq!(
        ReadableStream::from_text("h\u{e9}").array_buffer().unwrap().to_vec(),
        vec![0x68, 0xC3, 0xA9]
    );
    assert_eq!(
        ReadableStream::from_bytes(Bytes::from(vec![0u8, 255])).array_buffer().unwrap().to_vec(),
        vec![0u8, 255]
    );
    let value = object(&[("a", Value::Number(Number::from(1)))]);
    assert_eq!(
        ReadableStream::from_json(&value).array_buffer().unwrap().to_vec(),
        b"{\"a\":1}".to_vec()
    );
    assert_eq!(
        ReadableStream::from_json(&Value::Null).blob().unwrap().to_vec(),
        b"null".to_vec()
    );
}

#[test]
fn text_of_each_kind_of_content() {
    assert_eq!(ReadableStream::empty().text().unwrap(), "");
    assert_eq!(ReadableStream::from_text("a b").text().unwrap(), "a b");
    assert_eq!(
        ReadableStream::from_bytes(Bytes::from(vec![0x68, 0xC3, 0xA9])).text().unwrap(),
        "h\u{e9}"
    );
    let value = Value::Array(vec![Value::Bool(true), Value::String("x".to_string())]);
    assert_eq!(ReadableStream::from_json(&value).text().unwrap(), "[true,\"x\"]");
    assert_eq!(ReadableStream::from_json(&value).form_data().unwrap(), "[true,\"x\"]");
}

#[test]
fn json_of_each_kind_of_content() {
    assert_eq!(
        type_message(ReadableStream::empty().json()),
        "Unexpected end of JSON input"
    );
    assert_eq!(
        ReadableStream::from_text(" [1, 2] ").json().unwrap(),
        Value::Array(vec![Value::Number(Number::from(1)), Value::Number(Number::from(2))])
    );
    assert_eq!(type_message(ReadableStream::from_text("{").json()), "JSON parse error");
    assert_eq!(type_message(ReadableStream::from_text("").json()), "JSON parse error");
    assert_eq!(
        ReadableStream::from_bytes(Bytes::from(b"\"s\"".to_vec())).json().unwrap(),
        Value::String("s".to_string())
    );
    assert_eq!(
        type_message(ReadableStream::from_bytes(Bytes::from(vec![0xFF])).json()),
        "JSON parse error"
    );
    let value = object(&[("k", Value::Null)]);
    assert_eq!(ReadableStream::from_json(&value).json().unwrap(), value);
}

#[test]
fn to_bytes_does_not_use_the_stream_up() {
    let stream = ReadableStream::from_text("twice");
    assert_eq!(stream.to_bytes().unwrap().to_vec(), b"twice".to_vec());
    assert_eq!(stream.to_bytes().unwrap().to_vec(), b"twice".to_vec());
    assert!(!stream.is_used());
    assert_eq!(stream.text().unwrap(), "twice");
    assert_eq!(ReadableStream::empty().to_bytes().unwrap().len(), 0);
    let bytes = ReadableStream::from_bytes(Bytes::from(vec![9u8, 8]));
    assert_eq!(bytes.to_bytes().unwrap().to_vec(), vec![9u8, 8]);
}

#[test]
fn a_clone_is_read_on_its_own() {
    let mut stream = ReadableStream::from_text("both");
    let copy = stream.clone();
    assert_eq!(stream.read_text().unwrap(), "both");
    assert!(stream.is_used());
    assert!(!copy.is_used());
    assert_eq!(copy.text().unwrap(), "both");

    let used = stream.clone();
    assert!(used.is_used());

    let bytes = ReadableStream::from_bytes(Bytes::from(vec![1u8, 2]));
    assert_eq!(bytes.clone().array_buffer().unwrap().to_vec(), vec![1u8, 2]);
    let json = ReadableStream::from_json(&Value::Bool(false));
    assert_eq!(json.clone().json().unwrap(), Value::Bool(false));
}

#[test]
fn conversions_give_the_content() {
    assert_eq!(ReadableStream::from("t").text().unwrap(), "t");
    assert_eq!(ReadableStream::from(String::from("s")).text().unwrap(), "s");
    assert_eq!(
        ReadableStream::from(Bytes::from(vec![7u8])).array_buffer().unwrap().to_vec(),
        vec![7u8]
    );
    assert_eq!(ReadableStream::from(vec![6u8, 5]).array_buffer().unwrap().to_vec(), vec![6u8, 5]);
    assert_eq!(ReadableStream::from(Value::Null).json().unwrap(), Value::Null);
}
