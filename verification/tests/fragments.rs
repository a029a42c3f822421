use xesite_templates::site::{advertiser_nag, conv, hero, picture, slide, sticker};

#[test]
fn conv_exact_output() {
    let out = conv(
        "Numa_Chan".to_string(),
        "happy".to_string(),
        "<em>hi</em>".to_string(),
    );
    assert_eq!(
        out,
        "<div class=\"conversation\"><div class=\"conversation-standalone\"><picture>\
         <source type=\"image/avif\" srcset=\"https://cdn.xeiaso.net/file/christine-static/stickers/numa_chan/happy.avif\">\
         <source type=\"image/webp\" srcset=\"https://cdn.xeiaso.net/file/christine-static/stickers/numa_chan/happy.webp\">\
         <img style=\"max-height:4.5rem\" alt=\"Numa Chan is happy\" loading=\"lazy\" src=\"https://cdn.xeiaso.net/file/christine-static/stickers/numa_chan/happy.png\">\
         </picture></div><div class=\"conversation-chat\">&lt;<a href=\"/characters#numa_chan\"><b>Numa Chan</b></a>&gt; <em>hi</em></div></div>"
    );
}

#[test]
fn conv_lowercases_and_escapes_name() {
    let out = conv("CADEY<".to_string(), "coffee".to_string(), "x".to_string());
    assert!(out.contains("stickers/cadey&lt;/coffee.avif"));
    assert!(out.contains("/characters#cadey&lt;"));
    assert!(out.contains("<b>CADEY&lt;</b>"));
}

#[test]
fn sticker_exact_output() {
    let out = sticker("Aoi".to_string(), "wut".to_string());
    assert_eq!(
        out,
        "<center><picture>\
         <source type=\"image/avif\" srcset=\"https://cdn.xeiaso.net/file/christine-static/stickers/aoi/wut.avif\">\
         <source type=\"image/webp\" srcset=\"https://cdn.xeiaso.net/file/christine-static/stickers/aoi/wut.webp\">\
         <img alt=\"Aoi is wut\" src=\"https://cdn.xeiaso.net/file/christine-static/stickers/aoi/wut.png\">\
         </picture></center>"
    );
}

#[test]
fn slide_essential_and_fluff() {
    let out = slide("t1".to_string(), true);
    assert_eq!(
        out,
        "<div class=\"hero xeblog-slides-essential\"><picture style=\"margin:0\">\
         <source type=\"image/avif\" srcset=\"https://cdn.xeiaso.net/file/christine-static/talks/t1.avif\">\
         <source type=\"image/webp\" srcset=\"https://cdn.xeiaso.net/file/christine-static/talks/t1.webp\">\
         <img style=\"padding:0\" loading=\"lazy\" src=\"https://cdn.xeiaso.net/file/christine-static/talks/t1-smol.png\">\
         </picture></div>"
    );
    let fluff = slide("t1".to_string(), false);
    assert!(fluff.starts_with("<div class=\"hero xeblog-slides-fluff\">"));
}

#[test]
fn picture_exact_output() {
    let out = picture("blog/x".to_string());
    assert_eq!(
        out,
        "<a href=\"https://cdn.xeiaso.net/file/christine-static/blog/x.jpg\" target=\"_blank\">\
         <picture class=\"picture\" style=\"margin:0\">\
         <source type=\"image/avif\" srcset=\"https://cdn.xeiaso.net/file/christine-static/blog/x.avif\">\
         <source type=\"image/webp\" srcset=\"https://cdn.xeiaso.net/file/christine-static/blog/x.webp\">\
         <img class=\"picture\" style=\"padding:0\" loading=\"lazy\" alt=\"hero image blog/x\" src=\"https://cdn.xeiaso.net/file/christine-static/blog/x-smol.png\">\
         </picture></a>"
    );
}

#[test]
fn hero_default_attribution() {
    let out = hero("pond".to_string(), None, None);
    assert!(out.starts_with(
        "<meta property=\"og:image\" content=\"https://cdn.xeiaso.net/file/christine-static/hero/pond-smol.png\">"
    ));
    assert!(out.ends_with("<figcaption>MidJourney</figcaption></figure>"));
    assert!(!out.contains(" -- "));
}

#[test]
fn hero_prompt_and_attribution() {
    let out = hero(
        "pond".to_string(),
        Some("a cool pond".to_string()),
        Some("Flux".to_string()),
    );
    assert!(out.ends_with("<figcaption>Flux -- a cool pond</figcaption></figure>"));
}

#[test]
fn advertiser_nag_custom_fragment() {
    let out = advertiser_nag(Some("<b>pay up</b>".to_string()));
    assert_eq!(
        out,
        "<script async src=\"https://media.ethicalads.io/media/client/ethicalads.min.js\"></script>\
         <div class=\"adaptive\" data-ea-publisher=\"christinewebsite\" data-ea-type=\"text\" data-ea-style=\"fixedfooter\">\
         <div class=\"warning\"><b>pay up</b></div></div>"
    );
}

#[test]
fn advertiser_nag_default_aside() {
    let out = advertiser_nag(None);
    assert!(out.starts_with(
        "<script async src=\"https://media.ethicalads.io/media/client/ethicalads.min.js\"></script>"
    ));
    assert!(out.contains("<div class=\"conversation\">"));
    assert!(out.contains("<a href=\"https://www.ethicalads.io/\">Ethical Ads</a>"));
    assert!(out.contains("<a href=\"https://www.patreon.com/cadey\">Patreon</a>"));
    assert!(out.contains("<code>xeiaso.eth</code>"));
    assert!(out.contains("/characters#cadey"));
    assert!(out.ends_with("</div></div>"));
}
