use serde_json::Value;
use xesite_templates::mount::xeact_component;
use xesite_templates::site::{talk_warning, video};

fn anchor_id(fragment: &str) -> String {
    assert!(fragment.starts_with("<div id=\""));
    let id = &fragment[9..41];
    assert_eq!(id.len(), 32);
    assert!(id
        .chars()
        .all(|c| c.is_ascii_digit() || ('a'..='f').contains(&c)));
    id.to_string()
}

fn embedded_props(fragment: &str) -> String {
    let open = "root.appendChild(Component(";
    let close = "))\n</script>\n";
    assert!(fragment.ends_with(close));
    let start = fragment.find(open).unwrap() + open.len();
    let end = fragment.len() - close.len();
    fragment[start..end].to_string()
}

#[test]
fn mount_ids_unique_across_many_calls() {
    let mut ids: Vec<String> = Vec::new();
    for _ in 0..10000 {
        let out = xeact_component("Counter", Value::Null).unwrap();
        ids.push(anchor_id(&out));
    }
    ids.sort();
    for pair in ids.windows(2) {
        assert_ne!(pair[0], pair[1]);
    }
}

#[test]
fn mount_emits_one_anchor_and_loader() {
    let out = xeact_component("Counter", Value::Null).unwrap();
    let id = anchor_id(&out);
    assert_eq!(out.matches("<div id=\"").count(), 1);
    assert!(out.contains(&format!(
        "import Component from \"/static/xeact/Counter.js?cacheBuster={}\";",
        id
    )));
    assert!(out.contains(&format!("const root = g(\"{}\");", id)));
    assert!(out.contains("x(root);"));
    assert!(out.contains("<noscript><div class=\"warning\">"));
    assert!(out.contains("This dynamic component requires JavaScript to function, sorry!"));
    assert!(out.contains("/characters#aoi"));
    assert_eq!(embedded_props(&out), "null");
}

#[test]
fn props_round_trip_and_injection_safety() {
    let mut inner = serde_json::Map::new();
    inner.insert("b".to_string(), Value::Null);
    let mut obj = serde_json::Map::new();
    obj.insert(
        "a".to_string(),
        Value::Array(vec![
            Value::from(1),
            Value::from(2),
            Value::Object(inner),
        ]),
    );
    obj.insert(
        "s".to_string(),
        Value::String("</script><script>alert(1)</script>".to_string()),
    );
    obj.insert("empty".to_string(), Value::Object(serde_json::Map::new()));
    let props = Value::Object(obj);
    let out = xeact_component("hello", props.clone()).unwrap();
    let embedded = embedded_props(&out);
    assert!(!embedded.contains('<'));
    let back: Value = serde_json::from_str(&embedded).unwrap();
    assert_eq!(back, props);
}

#[test]
fn props_round_trip_plain_values() {
    for props in [
        Value::Null,
        Value::from(true),
        Value::from(-7),
        Value::String(String::new()),
        Value::Array(vec![]),
    ] {
        let out = xeact_component("w", props.clone()).unwrap();
        let back: Value = serde_json::from_str(&embedded_props(&out)).unwrap();
        assert_eq!(back, props);
    }
}

#[test]
fn video_mounts_video_widget_with_path() {
    let out = video("talks/foo.mp4".to_string());
    let id = anchor_id(&out);
    assert!(out.contains(&format!(
        "import Component from \"/static/xeact/Video.js?cacheBuster={}\";",
        id
    )));
    let embedded = embedded_props(&out);
    assert_eq!(embedded, "{\"path\":\"talks/foo.mp4\"}");
    let back: Value = serde_json::from_str(&embedded).unwrap();
    assert_eq!(back["path"], Value::String("talks/foo.mp4".to_string()));
}

#[test]
fn video_path_cannot_close_script() {
    let out = video("</script><script>evil".to_string());
    let embedded = embedded_props(&out);
    assert!(!embedded.contains('<'));
    let back: Value = serde_json::from_str(&embedded).unwrap();
    assert_eq!(back["path"], Value::String("</script><script>evil".to_string()));
}

#[test]
fn talk_warning_wraps_aside_with_widget() {
    let out = talk_warning();
    assert!(out.starts_with("<div class=\"warning\"><div class=\"conversation\">"));
    assert!(out.ends_with("</div></div>"));
    assert!(out.contains("<a href=\"/characters#cadey\"><b>Cadey</b></a>"));
    assert!(out.contains("you are reading the written version of a conference talk"));
    assert!(out.contains("import Component from \"/static/xeact/NoFunAllowed.js?cacheBuster="));
    assert!(out.contains("root.appendChild(Component(null))"));
}
