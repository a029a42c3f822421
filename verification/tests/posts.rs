use xesite_templates::post::{toot_embed, Attachment, Author, Post, PubTime};

fn cadey() -> Author {
    Author {
        name: "Cadey".to_string(),
        handle: "cadey".to_string(),
        url: "https://pony.social/@cadey".to_string(),
        avatar_url: "https://example.com/a.png".to_string(),
        id: "https://pony.social/users/cadey".to_string(),
    }
}

fn plain_post(content: &str) -> Post {
    Post {
        content: content.to_string(),
        attachments: vec![],
        summary: None,
        published: PubTime { year: 2023, month: 7, day: 4, hour: 13, minute: 5 },
        id: "123".to_string(),
        url: None,
    }
}

fn content_section(out: &str) -> &str {
    let open = "<div class=\"media-content\">";
    let start = out.find(open).unwrap() + open.len();
    &out[start..]
}

#[test]
fn verified_author_scenario() {
    let out = toot_embed(cadey(), plain_post("<p>hi</p>"));
    assert!(out.contains(
        "<img class=\"verified\" src=\"https://cdn.xeiaso.net/file/christine-static/blog/verified.png\">"
    ));
    assert!(out.contains("@cadey"));
    assert!(out.contains("hi"));
    assert!(out.contains("<a href=\"123\">Link</a>"));
    assert_eq!(
        out,
        "<div class=\"media\"><div class=\"media-left\"><div class=\"avatarholder\">\
         <img src=\"https://example.com/a.png\" alt=\"the profile picture for cadey\">\
         </div></div><div class=\"media-body\"><div class=\"media-heading\">Cadey\
         <img class=\"verified\" src=\"https://cdn.xeiaso.net/file/christine-static/blog/verified.png\">\
         \u{20}<a href=\"https://pony.social/@cadey\">@cadey</a><br>M07 04 2023 13:05 (UTC)</div>\
         <div class=\"media-content\"><p>hi</p><a href=\"123\">Link</a></div></div></div>"
    );
}

#[test]
fn untrusted_author_marker_stripped_no_badge() {
    let mut author = cadey();
    author.name = "Evil :verified: Person".to_string();
    author.handle = "evil".to_string();
    author.id = "https://elsewhere.example/users/evil".to_string();
    let out = toot_embed(author, plain_post("<p>hi</p>"));
    assert!(out.contains("<div class=\"media-heading\">Evil  Person <a href="));
    assert!(!out.contains("verified.png"));
    assert!(!out.contains(":verified:"));
}

#[test]
fn no_attachments_no_line_break() {
    let out = toot_embed(cadey(), plain_post("<p>hi</p>"));
    assert!(out.contains("</a><br>M07"));
    assert!(!content_section(&out).contains("<br>"));
    assert!(content_section(&out).starts_with("<p>hi</p><a href=\"123\">Link</a>"));
}

#[test]
fn image_attachment_clickable_with_break() {
    let mut post = plain_post("<p>pic</p>");
    post.attachments = vec![Attachment {
        media_type: "image/png".to_string(),
        url: "https://example.com/i.png".to_string(),
        description: Some("a pic".to_string()),
    }];
    let out = toot_embed(cadey(), post);
    assert!(content_section(&out).starts_with(
        "<p>pic</p>\
         <a href=\"https://example.com/i.png\">\
         <img width=\"100%\" height=\"100%\" src=\"https://example.com/i.png\" alt=\"a pic\"></a>\
         <br><a href=\"123\">Link</a>"
    ));
}

#[test]
fn image_attachment_without_description() {
    let mut post = plain_post("x");
    post.attachments = vec![Attachment {
        media_type: "image/jpeg".to_string(),
        url: "https://example.com/j.jpg".to_string(),
        description: None,
    }];
    let out = toot_embed(cadey(), post);
    assert!(out.contains("alt=\"no description provided\""));
}

#[test]
fn video_attachment_native_player() {
    let mut post = plain_post("x");
    post.attachments = vec![Attachment {
        media_type: "video/mp4".to_string(),
        url: "https://example.com/v.mp4".to_string(),
        description: None,
    }];
    let out = toot_embed(cadey(), post);
    assert!(content_section(&out).starts_with(
        "x<video width=\"100%\" height=\"100%\" controls>\
         <source src=\"https://example.com/v.mp4\" type=\"video/mp4\">\
         Your browser does not support the video tag, see this URL: \
         <a href=\"https://example.com/v.mp4\">https://example.com/v.mp4</a></video>\
         <br><a href=\"123\">Link</a>"
    ));
}

#[test]
fn unsupported_attachment_invisible_but_breaks() {
    let mut post = plain_post("<p>x</p>");
    post.attachments = vec![Attachment {
        media_type: "application/pdf".to_string(),
        url: "https://example.com/d.pdf".to_string(),
        description: None,
    }];
    let out = toot_embed(cadey(), post);
    assert!(!out.contains("d.pdf"));
    assert!(content_section(&out).starts_with("<p>x</p><br><a href=\"123\">Link</a>"));
}

#[test]
fn content_warning_collapses_body() {
    let mut post = plain_post("<p>webs</p>");
    post.summary = Some("spiders".to_string());
    let out = toot_embed(cadey(), post);
    let section = content_section(&out);
    assert!(section.starts_with("<details><summary>spiders</summary><p>webs</p>"));
    assert!(section.contains("</details>"));
}

#[test]
fn no_content_warning_no_disclosure() {
    let out = toot_embed(cadey(), plain_post("<p>open</p>"));
    assert!(!out.contains("<details"));
    assert!(!out.contains("<summary"));
}

#[test]
fn canonical_url_preferred_for_permalink() {
    let mut post = plain_post("x");
    post.url = Some("https://pony.social/@cadey/1".to_string());
    let out = toot_embed(cadey(), post);
    assert!(out.contains("<a href=\"https://pony.social/@cadey/1\">Link</a>"));
    assert!(!out.contains("<a href=\"123\">"));
}

#[test]
fn interpolated_fields_are_escaped() {
    let mut author = cadey();
    author.name = "a<b".to_string();
    author.handle = "h\"x".to_string();
    author.id = "nobody".to_string();
    let mut post = plain_post("<p>kept &verbatim</p>");
    post.summary = Some("x<y".to_string());
    let out = toot_embed(author, post);
    assert!(out.contains("<div class=\"media-heading\">a&lt;b "));
    assert!(out.contains("@h&quot;x"));
    assert!(out.contains("<summary>x&lt;y</summary>"));
    assert!(out.contains("<p>kept &verbatim</p>"));
}
