use mdrs::b64::DecodeError;
use mdrs::decode;
use mdrs::encode;

#[test]
fn encode_hello() {
    assert_eq!(encode("hello"), "aGVsbG8=");
}

#[test]
fn encode_empty() {
    assert_eq!(encode(""), "");
}

#[test]
fn decode_hello() {
    assert_eq!(decode("aGVsbG8="), Ok(String::from("hello")));
}

#[test]
fn decode_round_trip() {
    let text = "{\"type\":\"offer\",\"sdp\":\"v=0\"}";
    assert_eq!(decode(&encode(text)), Ok(String::from(text)));
}

#[test]
fn decode_rejects_malformed_base64() {
    assert_eq!(decode("!!!"), Err(DecodeError::InvalidBase64));
}

#[test]
fn decode_rejects_non_utf8_payload() {
    // "/w==" decodes to the single byte 0xFF, which is not UTF-8.
    assert_eq!(decode("/w=="), Err(DecodeError::InvalidUtf8));
}
