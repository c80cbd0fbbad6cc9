use article_proxy::percent::percent_decode;

fn decode(s: &str) -> Vec<u8> {
    percent_decode(&s.as_bytes().to_vec())
}

#[test]
fn plain_text_is_kept() {
    assert_eq!(decode("hello"), b"hello".to_vec());
    assert_eq!(decode(""), b"".to_vec());
}

#[test]
fn encoded_url_is_decoded() {
    assert_eq!(
        decode("http%3A%2F%2Fexample.com%2F"),
        b"http://example.com/".to_vec()
    );
}

#[test]
fn hex_digits_of_both_cases_are_decoded() {
    assert_eq!(decode("%41%42%61%62"), b"ABab".to_vec());
    assert_eq!(decode("%2f%2F"), b"//".to_vec());
}

#[test]
fn plus_is_kept_literally() {
    assert_eq!(decode("a+b"), b"a+b".to_vec());
}

#[test]
fn malformed_sequences_pass_through() {
    assert_eq!(decode("%"), b"%".to_vec());
    assert_eq!(decode("%4"), b"%4".to_vec());
    assert_eq!(decode("%4g"), b"%4g".to_vec());
    assert_eq!(decode("%g4"), b"%g4".to_vec());
    assert_eq!(decode("%%41"), b"%A".to_vec());
    assert_eq!(decode("abc%"), b"abc%".to_vec());
}

#[test]
fn decoded_bytes_may_be_arbitrary() {
    assert_eq!(decode("%00%FF%80"), vec![0x00, 0xFF, 0x80]);
}

#[test]
fn decoding_agrees_with_urlencoding_crate() {
    let samples: Vec<&str> = vec![
        "",
        "hello",
        "http%3A%2F%2Fexample.com%2F",
        "a+b%20c",
        "%",
        "%4",
        "%4g",
        "%g4",
        "%%41",
        "%E4%B8%AD%E6%96%87",
        "mixed%2Fcase%2f%ZZtail",
        "100%25",
    ];
    for s in samples {
        let ours = decode(s);
        let theirs = urlencoding::decode_binary(s.as_bytes()).into_owned();
        assert_eq!(ours, theirs, "disagreement on {s:?}");
    }
}
