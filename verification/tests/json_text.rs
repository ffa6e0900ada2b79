use realworld_api::errors::{frame_details, frame_wrapper};
use realworld_api::json::{number, quote};
use realworld_api::payloads::frame_output;
use realworld_api::user::frame_user;

#[test]
fn number_writes_decimal_digits() {
    assert_eq!(number(0), "0");
    assert_eq!(number(7), "7");
    assert_eq!(number(10), "10");
    assert_eq!(number(400), "400");
    assert_eq!(number(422), "422");
    assert_eq!(number(9999), "9999");
    assert_eq!(number(65535), "65535");
}

#[test]
fn number_agrees_with_serde_json() {
    let samples: Vec<u16> = vec![0, 1, 9, 10, 99, 100, 101, 200, 400, 999, 1000, 12345, 65534, 65535];
    for n in samples {
        assert_eq!(number(n), serde_json::to_string(&n).unwrap());
    }
}

#[test]
fn quote_puts_plain_text_between_double_quotes() {
    assert_eq!(quote(""), "\"\"");
    assert_eq!(quote("repo_error"), "\"repo_error\"");
    assert_eq!(quote("/api/users/login?next=a b"), "\"/api/users/login?next=a b\"");
    assert_eq!(quote("caf\u{e9} \u{1f600} \u{7f}"), "\"caf\u{e9} \u{1f600} \u{7f}\"");
}

#[test]
fn quote_escapes_reserved_characters() {
    assert_eq!(quote("say \"hi\""), "\"say \\\"hi\\\"\"");
    assert_eq!(quote("a\\b"), "\"a\\\\b\"");
    assert_eq!(quote("line\nbreak\ttab\rreturn"), "\"line\\nbreak\\ttab\\rreturn\"");
    assert_eq!(quote("\u{8}\u{c}"), "\"\\b\\f\"");
    assert_eq!(quote("\u{0}\u{1f}"), "\"\\u0000\\u001f\"");
}

#[test]
fn quote_agrees_with_serde_json() {
    let samples = vec![
        "",
        "plain",
        "with \"quotes\" and \\ slashes",
        "control \u{0}\u{1}\u{1f} characters",
        "\n\r\t\u{8}\u{c}",
        "unicode \u{e9}\u{4e2d}\u{1f600}",
        "EOF while parsing a string at line 1 column 20",
    ];
    for s in samples {
        assert_eq!(quote(s), serde_json::to_string(s).unwrap());
    }
}

#[test]
fn quote_round_trips_through_a_json_parser() {
    let samples = vec!["", "a\"b", "tab\there", "\\", "\u{0}", "x\u{7f}y", "/api/users"];
    for s in samples {
        let parsed: String = serde_json::from_str(&quote(s)).unwrap();
        assert_eq!(parsed, s);
    }
}

#[test]
fn frame_details_lists_the_members_in_order() {
    let text = frame_details("400", "\"m\"", "\"s\"", "\"d\"", "\"u\"", "\"t\"");
    assert_eq!(
        text,
        "{\"status\":400,\"message\":\"m\",\"message_shortcode\":\"s\",\"datetime\":\"d\",\"url\":\"u\",\"error_type\":\"t\"}"
    );
}

#[test]
fn frame_details_takes_the_members_as_they_are() {
    let text = frame_details("", "", "", "", "", "");
    assert_eq!(
        text,
        "{\"status\":,\"message\":,\"message_shortcode\":,\"datetime\":,\"url\":,\"error_type\":}"
    );
}

#[test]
fn frame_wrapper_puts_the_details_under_error() {
    assert_eq!(frame_wrapper("{}"), "{\"error\":{}}");
    assert_eq!(frame_wrapper(""), "{\"error\":}");
}

#[test]
fn frame_user_lists_the_members_in_order() {
    let text = frame_user("\"n\"", "\"e\"", "\"t\"", "\"b\"", "\"i\"");
    assert_eq!(
        text,
        "{\"username\":\"n\",\"email\":\"e\",\"token\":\"t\",\"bio\":\"b\",\"image\":\"i\"}"
    );
}

#[test]
fn frame_output_puts_the_user_under_user() {
    assert_eq!(frame_output("{}"), "{\"user\":{}}");
}

#[test]
fn quote_leaves_exactly_the_plain_characters_as_they_are() {
    let mut escaped = 0;
    for code in 0..=0x10ffff_u32 {
        let c = match char::from_u32(code) {
            Some(c) => c,
            None => continue,
        };
        let text = c.to_string();
        let plain = c != '"' && c != '\\' && code >= 0x20;
        let between_quotes = format!("\"{}\"", text);
        if plain {
            assert_eq!(quote(&text), between_quotes);
        } else {
            assert_ne!(quote(&text), between_quotes);
            escaped += 1;
        }
    }
    assert_eq!(escaped, 34);
}

#[test]
fn quote_of_mixed_text_keeps_the_plain_parts() {
    assert_eq!(quote("a\"b"), "\"a\\\"b\"");
    assert_eq!(quote("\u{1f}~\u{20}"), "\"\\u001f~ \"");
}
