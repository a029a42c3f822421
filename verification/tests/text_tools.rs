use xesite_templates::json::{json_quote, script_safe};
use xesite_templates::post::{format_timestamp, PubTime};
use xesite_templates::text::{escape_html, replace_underscores, strip_verified};

#[test]
fn escape_html_entities() {
    assert_eq!(escape_html("a<b>&\"c"), "a&lt;b&gt;&amp;&quot;c");
    assert_eq!(escape_html(""), "");
    assert_eq!(escape_html("plain text"), "plain text");
}

#[test]
fn replace_underscores_with_spaces() {
    assert_eq!(replace_underscores("Numa_Chan"), "Numa Chan");
    assert_eq!(replace_underscores("____"), "    ");
    assert_eq!(replace_underscores("none"), "none");
}

#[test]
fn strip_verified_marker() {
    assert_eq!(strip_verified("Cadey :verified:"), "Cadey ");
    assert_eq!(strip_verified(":verified::verified:X"), "X");
    assert_eq!(strip_verified("ab"), "ab");
    assert_eq!(strip_verified(":verified"), ":verified");
    assert_eq!(strip_verified("a:verified:b:verified:c"), "abc");
}

#[test]
fn timestamp_fixed_pattern() {
    let t = PubTime { year: 2023, month: 7, day: 4, hour: 13, minute: 5 };
    assert_eq!(format_timestamp(&t), "M07 04 2023 13:05 (UTC)");
    let early = PubTime { year: 800, month: 3, day: 9, hour: 5, minute: 7 };
    assert_eq!(format_timestamp(&early), "M03 09 0800 05:07 (UTC)");
    let edge = PubTime { year: 9999, month: 12, day: 31, hour: 23, minute: 59 };
    assert_eq!(format_timestamp(&edge), "M12 31 9999 23:59 (UTC)");
}

#[test]
fn json_quote_escapes() {
    assert_eq!(json_quote("a\"b\\c\nd<e"), "\"a\\\"b\\\\c\\nd\\u003ce\"");
    assert_eq!(json_quote("\r\t"), "\"\\r\\t\"");
    assert_eq!(json_quote("\u{8}\u{c}"), "\"\\b\\f\"");
    assert_eq!(json_quote("\u{1}"), "\"\\u0001\"");
    assert_eq!(json_quote("</script>"), "\"\\u003c/script\\u003e\"");
    assert_eq!(json_quote(""), "\"\"");
}

#[test]
fn json_quote_parses_back() {
    let quoted = json_quote("x </script> & <b>\"q\"\n");
    assert!(!quoted.contains('<'));
    let back: serde_json::Value = serde_json::from_str(&quoted).unwrap();
    assert_eq!(back, serde_json::Value::String("x </script> & <b>\"q\"\n".to_string()));
}

#[test]
fn script_safe_removes_markup_chars() {
    assert_eq!(
        script_safe("{\"a\":\"<>&\"}"),
        "{\"a\":\"\\u003c\\u003e\\u0026\"}"
    );
    let safe = script_safe("\"</script>\"");
    assert!(!safe.contains('<'));
    let back: serde_json::Value = serde_json::from_str(&safe).unwrap();
    assert_eq!(back, serde_json::Value::String("</script>".to_string()));
}
