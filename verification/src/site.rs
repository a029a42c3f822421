//! Static fragment builders for the site: conversational asides, stickers,
//! slides, pictures and hero images.
//!
//! Every interpolated value is HTML-escaped; a `body` parameter is an
//! already-rendered fragment and is inserted verbatim.

use vstd::prelude::*;
use vstd::string::StringExecFns;
use crate::json::{json_quoted, json_quote};
use crate::mount::{mount_markup, mount_with_token, fresh_token, is_mounted_fragment, valid_token};
use crate::text::{html_escaped, lower_of, underscored, escape_html, replace_underscores, to_lower};

verus! {

/// The address of one sticker image: a speaker's lowercased name and a
/// mood pick the file, `ext` picks the encoding.
pub open spec fn sticker_src(name: Seq<char>, mood: Seq<char>, ext: Seq<char>) -> Seq<char> {
    "https://cdn.xeiaso.net/file/christine-static/stickers/"@ + html_escaped(lower_of(name)) + "/"@
        + html_escaped(mood) + ext
}

/// A conversational aside: the speaker's sticker for the mood, then a
/// chat line `<name> body`. The speaker is linked to the character page
/// under the lowercased name; underscores in the displayed name read as
/// spaces; `body` is an already-rendered fragment, inserted verbatim.
pub open spec fn conv_markup(name: Seq<char>, mood: Seq<char>, body: Seq<char>) -> Seq<char> {
    "<div class=\"conversation\"><div class=\"conversation-standalone\"><picture><source type=\"image/avif\" srcset=\""@
        + sticker_src(name, mood, ".avif"@)
        + "\"><source type=\"image/webp\" srcset=\""@
        + sticker_src(name, mood, ".webp"@)
        + "\"><img style=\"max-height:4.5rem\" alt=\""@
        + html_escaped(underscored(name))
        + " is "@
        + html_escaped(mood)
        + "\" loading=\"lazy\" src=\""@
        + sticker_src(name, mood, ".png"@)
        + "\"></picture></div><div class=\"conversation-chat\">&lt;<a href=\"/characters#"@
        + html_escaped(lower_of(name))
        + "\"><b>"@
        + html_escaped(underscored(name))
        + "</b></a>&gt; "@
        + body
        + "</div></div>"@
}

/// Renders a conversational aside for a speaker, a mood and an
/// already-rendered body fragment.
pub fn conv(name: String, mood: String, body: String) -> (r: String)
    ensures
        r@ == conv_markup(name@, mood@, body@),
{
    let lower = to_lower(name.as_str());
    let lower_esc = escape_html(lower.as_str());
    let disp = replace_underscores(name.as_str());
    let disp_esc = escape_html(disp.as_str());
    let mood_esc = escape_html(mood.as_str());
    let mut out = String::new();
    out.append(
        "<div class=\"conversation\"><div class=\"conversation-standalone\"><picture><source type=\"image/avif\" srcset=\"",
    );
    out.append("https://cdn.xeiaso.net/file/christine-static/stickers/");
    out.append(lower_esc.as_str());
    out.append("/");
    out.append(mood_esc.as_str());
    out.append(".avif");
    out.append("\"><source type=\"image/webp\" srcset=\"");
    out.append("https://cdn.xeiaso.net/file/christine-static/stickers/");
    out.append(lower_esc.as_str());
    out.append("/");
    out.append(mood_esc.as_str());
    out.append(".webp");
    out.append("\"><img style=\"max-height:4.5rem\" alt=\"");
    out.append(disp_esc.as_str());
    out.append(" is ");
    out.append(mood_esc.as_str());
    out.append("\" loading=\"lazy\" src=\"");
    out.append("https://cdn.xeiaso.net/file/christine-static/stickers/");
    out.append(lower_esc.as_str());
    out.append("/");
    out.append(mood_esc.as_str());
    out.append(".png");
    out.append("\"></picture></div><div class=\"conversation-chat\">&lt;<a href=\"/characters#");
    out.append(lower_esc.as_str());
    out.append("\"><b>");
    out.append(disp_esc.as_str());
    out.append("</b></a>&gt; ");
    out.append(body.as_str());
    out.append("</div></div>");
    proof {
        assert(out@ =~= conv_markup(name@, mood@, body@));
    }
    out
}

/// A centered sticker of a speaker in a mood; the alt text shows the name
/// as given.
pub open spec fn sticker_markup(name: Seq<char>, mood: Seq<char>) -> Seq<char> {
    "<center><picture><source type=\"image/avif\" srcset=\""@ + sticker_src(name, mood, ".avif"@)
        + "\"><source type=\"image/webp\" srcset=\""@ + sticker_src(name, mood, ".webp"@)
        + "\"><img alt=\""@ + html_escaped(name) + " is "@ + html_escaped(mood) + "\" src=\""@
        + sticker_src(name, mood, ".png"@) + "\"></picture></center>"@
}

/// Renders a centered sticker for a speaker and a mood.
pub fn sticker(name: String, mood: String) -> (r: String)
    ensures
        r@ == sticker_markup(name@, mood@),
{
    let lower = to_lower(name.as_str());
    let lower_esc = escape_html(lower.as_str());
    let name_esc = escape_html(name.as_str());
    let mood_esc = escape_html(mood.as_str());
    let mut out = String::new();
    out.append("<center><picture><source type=\"image/avif\" srcset=\"");
    out.append("https://cdn.xeiaso.net/file/christine-static/stickers/");
    out.append(lower_esc.as_str());
    out.append("/");
    out.append(mood_esc.as_str());
    out.append(".avif");
    out.append("\"><source type=\"image/webp\" srcset=\"");
    out.append("https://cdn.xeiaso.net/file/christine-static/stickers/");
    out.append(lower_esc.as_str());
    out.append("/");
    out.append(mood_esc.as_str());
    out.append(".webp");
    out.append("\"><img alt=\"");
    out.append(name_esc.as_str());
    out.append(" is ");
    out.append(mood_esc.as_str());
    out.append("\" src=\"");
    out.append("https://cdn.xeiaso.net/file/christine-static/stickers/");
    out.append(lower_esc.as_str());
    out.append("/");
    out.append(mood_esc.as_str());
    out.append(".png");
    out.append("\"></picture></center>");
    proof {
        assert(out@ =~= sticker_markup(name@, mood@));
    }
    out
}

/// One slide of a talk: a hero-styled picture of the slide image, classed
/// as essential or fluff so that fluff slides can be hidden.
pub open spec fn slide_markup(name: Seq<char>, essential: bool) -> Seq<char> {
    "<div class=\"hero "@ + (if essential {
        "xeblog-slides-essential"@
    } else {
        "xeblog-slides-fluff"@
    }) + "\"><picture style=\"margin:0\"><source type=\"image/avif\" srcset=\"https://cdn.xeiaso.net/file/christine-static/talks/"@
        + html_escaped(name)
        + ".avif\"><source type=\"image/webp\" srcset=\"https://cdn.xeiaso.net/file/christine-static/talks/"@
        + html_escaped(name)
        + ".webp\"><img style=\"padding:0\" loading=\"lazy\" src=\"https://cdn.xeiaso.net/file/christine-static/talks/"@
        + html_escaped(name) + "-smol.png\"></picture></div>"@
}

/// Renders one slide image of a talk.
pub fn slide(name: String, essential: bool) -> (r: String)
    ensures
        r@ == slide_markup(name@, essential),
{
    let name_esc = escape_html(name.as_str());
    let mut out = String::new();
    out.append("<div class=\"hero ");
    if essential {
        out.append("xeblog-slides-essential");
    } else {
        out.append("xeblog-slides-fluff");
    }
    out.append(
        "\"><picture style=\"margin:0\"><source type=\"image/avif\" srcset=\"https://cdn.xeiaso.net/file/christine-static/talks/",
    );
    out.append(name_esc.as_str());
    out.append(
        ".avif\"><source type=\"image/webp\" srcset=\"https://cdn.xeiaso.net/file/christine-static/talks/",
    );
    out.append(name_esc.as_str());
    out.append(
        ".webp\"><img style=\"padding:0\" loading=\"lazy\" src=\"https://cdn.xeiaso.net/file/christine-static/talks/",
    );
    out.append(name_esc.as_str());
    out.append("-smol.png\"></picture></div>");
    proof {
        assert(out@ =~= slide_markup(name@, essential));
    }
    out
}

/// A stand-alone picture: the image in three encodings, wrapped in a link
/// to the full-size file.
pub open spec fn picture_markup(path: Seq<char>) -> Seq<char> {
    "<a href=\"https://cdn.xeiaso.net/file/christine-static/"@ + html_escaped(path)
        + ".jpg\" target=\"_blank\"><picture class=\"picture\" style=\"margin:0\"><source type=\"image/avif\" srcset=\"https://cdn.xeiaso.net/file/christine-static/"@
        + html_escaped(path)
        + ".avif\"><source type=\"image/webp\" srcset=\"https://cdn.xeiaso.net/file/christine-static/"@
        + html_escaped(path)
        + ".webp\"><img class=\"picture\" style=\"padding:0\" loading=\"lazy\" alt=\"hero image "@
        + html_escaped(path) + "\" src=\"https://cdn.xeiaso.net/file/christine-static/"@
        + html_escaped(path) + "-smol.png\"></picture></a>"@
}

/// Renders a stand-alone picture linking to its full-size file.
pub fn picture(path: String) -> (r: String)
    ensures
        r@ == picture_markup(path@),
{
    let path_esc = escape_html(path.as_str());
    let mut out = String::new();
    out.append("<a href=\"https://cdn.xeiaso.net/file/christine-static/");
    out.append(path_esc.as_str());
    out.append(
        ".jpg\" target=\"_blank\"><picture class=\"picture\" style=\"margin:0\"><source type=\"image/avif\" srcset=\"https://cdn.xeiaso.net/file/christine-static/",
    );
    out.append(path_esc.as_str());
    out.append(
        ".avif\"><source type=\"image/webp\" srcset=\"https://cdn.xeiaso.net/file/christine-static/",
    );
    out.append(path_esc.as_str());
    out.append(
        ".webp\"><img class=\"picture\" style=\"padding:0\" loading=\"lazy\" alt=\"hero image ",
    );
    out.append(path_esc.as_str());
    out.append("\" src=\"https://cdn.xeiaso.net/file/christine-static/");
    out.append(path_esc.as_str());
    out.append("-smol.png\"></picture></a>");
    proof {
        assert(out@ =~= picture_markup(path@));
    }
    out
}

/// The caption under a hero image: the attribution (a named generator, or
/// a default) and, if present, the prompt after a separator.
pub open spec fn hero_caption(prompt: Option<String>, ai: Option<String>) -> Seq<char> {
    (match ai {
        Some(a) => html_escaped(a@),
        None => html_escaped("MidJourney"@),
    }) + (match prompt {
        Some(p) => " -- "@ + html_escaped(p@),
        None => Seq::<char>::empty(),
    })
}

/// A hero image: an open-graph meta tag for the image, the picture in
/// three encodings, and a caption with attribution and optional prompt.
pub open spec fn hero_markup(file: Seq<char>, prompt: Option<String>, ai: Option<String>) -> Seq<
    char,
> {
    "<meta property=\"og:image\" content=\"https://cdn.xeiaso.net/file/christine-static/hero/"@
        + html_escaped(file)
        + "-smol.png\"><figure class=\"hero\" style=\"margin:0\"><picture style=\"margin:0\"><source type=\"image/avif\" srcset=\"https://cdn.xeiaso.net/file/christine-static/hero/"@
        + html_escaped(file)
        + ".avif\"><source type=\"image/webp\" srcset=\"https://cdn.xeiaso.net/file/christine-static/hero/"@
        + html_escaped(file)
        + ".webp\"><img style=\"padding:0\" loading=\"lazy\" alt=\"hero image "@
        + html_escaped(file) + "\" src=\"https://cdn.xeiaso.net/file/christine-static/hero/"@
        + html_escaped(file) + "-smol.png\"></picture><figcaption>"@ + hero_caption(prompt, ai)
        + "</figcaption></figure>"@
}

/// Renders a hero image with attribution.
pub fn hero(file: String, prompt: Option<String>, ai: Option<String>) -> (r: String)
    ensures
        r@ == hero_markup(file@, prompt, ai),
{
    let file_esc = escape_html(file.as_str());
    let mut out = String::new();
    out.append(
        "<meta property=\"og:image\" content=\"https://cdn.xeiaso.net/file/christine-static/hero/",
    );
    out.append(file_esc.as_str());
    out.append(
        "-smol.png\"><figure class=\"hero\" style=\"margin:0\"><picture style=\"margin:0\"><source type=\"image/avif\" srcset=\"https://cdn.xeiaso.net/file/christine-static/hero/",
    );
    out.append(file_esc.as_str());
    out.append(
        ".avif\"><source type=\"image/webp\" srcset=\"https://cdn.xeiaso.net/file/christine-static/hero/",
    );
    out.append(file_esc.as_str());
    out.append(".webp\"><img style=\"padding:0\" loading=\"lazy\" alt=\"hero image ");
    out.append(file_esc.as_str());
    out.append("\" src=\"https://cdn.xeiaso.net/file/christine-static/hero/");
    out.append(file_esc.as_str());
    out.append("-smol.png\"></picture><figcaption>");
    match &ai {
        Some(a) => {
            let a_esc = escape_html(a.as_str());
            out.append(a_esc.as_str());
        },
        None => {
            let a_esc = escape_html("MidJourney");
            out.append(a_esc.as_str());
        },
    }
    match &prompt {
        Some(p) => {
            out.append(" -- ");
            let p_esc = escape_html(p.as_str());
            out.append(p_esc.as_str());
        },
        None => {},
    }
    out.append("</figcaption></figure>");
    proof {
        assert(out@ =~= hero_markup(file@, prompt, ai));
    }
    out
}

/// The props text handed to the video widget: one object holding the clip
/// path, written as script-safe JSON.
pub open spec fn video_props_json(path: Seq<char>) -> Seq<char> {
    "{\"path\":"@ + json_quoted(path) + "}"@
}

/// Renders a native video player widget for a clip path: a mounted
/// fragment of the video widget whose props carry the path.
pub fn video(path: String) -> (r: String)
    ensures
        is_mounted_fragment(r@, "Video"@, video_props_json(path@)),
{
    let q = json_quote(path.as_str());
    let mut j = String::new();
    j.append("{\"path\":");
    j.append(q.as_str());
    j.append("}");
    let tok = fresh_token();
    proof {
        reveal_strlit("Video");
        assert(j@ =~= video_props_json(path@));
    }
    let m = mount_with_token("Video", tok.as_str(), j.as_str());
    proof {
        assert(valid_token(tok@) && m@ == mount_markup("Video"@, tok@, video_props_json(path@)));
    }
    m
}

/// The props text embedded for the video widget is lossless: two paths
/// with the same embedded text are the same path, so the parsed-back
/// props carry the original path.
pub proof fn lemma_video_props_lossless(p1: Seq<char>, p2: Seq<char>)
    requires
        video_props_json(p1) == video_props_json(p2),
    ensures
        p1 == p2,
{
    reveal_strlit("{\"path\":");
    reveal_strlit("}");
    let f = "{\"path\":"@;
    let q1 = json_quoted(p1);
    let q2 = json_quoted(p2);
    assert(video_props_json(p1).len() == f.len() + q1.len() + 1);
    assert(video_props_json(p2).len() == f.len() + q2.len() + 1);
    assert(q1.len() == q2.len());
    assert forall|i: int| 0 <= i < q1.len() implies q1[i] == q2[i] by {
        assert(video_props_json(p1)[f.len() + i] == q1[i]);
        assert(video_props_json(p2)[f.len() + i] == q2[i]);
    }
    assert(q1 =~= q2);
    crate::json::lemma_json_quoted_injective(p1, p2);
}

/// The spoken text of the talk notice, ending in the mounted fragment of
/// the widget that hides non-essential slides (its props are JSON null).
pub open spec fn talk_body(tok: Seq<char>) -> Seq<char> {
    "So you are aware: you are reading the written version of a conference talk. This is written in a different style that is more lighthearted, conversational and different than the content normally on this blog. The words being said are the verbatim words that were spoken at the conference. The slides are the literal slides for each spoken utterance. If you want to hide the non-essential slides, please press this button: "@
        + mount_markup("NoFunAllowed"@, tok, "null"@)
}

/// The talk notice: a warning box holding a conversational aside whose
/// body is `talk_body` over some valid mount token.
pub open spec fn talk_warning_markup(tok: Seq<char>) -> Seq<char> {
    "<div class=\"warning\">"@ + conv_markup("Cadey"@, "coffee"@, talk_body(tok)) + "</div>"@
}

/// Renders the notice shown above the written version of a conference
/// talk, with a button widget that hides the non-essential slides.
pub fn talk_warning() -> (r: String)
    ensures
        exists|tok: Seq<char>| valid_token(tok) && r@ == talk_warning_markup(tok),
{
    let tok = fresh_token();
    proof {
        reveal_strlit("NoFunAllowed");
    }
    let frag = mount_with_token("NoFunAllowed", tok.as_str(), "null");
    let mut body = String::new();
    body.append(
        "So you are aware: you are reading the written version of a conference talk. This is written in a different style that is more lighthearted, conversational and different than the content normally on this blog. The words being said are the verbatim words that were spoken at the conference. The slides are the literal slides for each spoken utterance. If you want to hide the non-essential slides, please press this button: ",
    );
    body.append(frag.as_str());
    let aside = conv("Cadey".to_owned(), "coffee".to_owned(), body);
    let mut out = String::new();
    out.append("<div class=\"warning\">");
    out.append(aside.as_str());
    out.append("</div>");
    proof {
        assert(out@ =~= talk_warning_markup(tok@));
        assert(valid_token(tok@) && out@ == talk_warning_markup(tok@));
    }
    out
}

/// The body of the default ad nag, an already-rendered fragment.
pub open spec fn nag_default_body() -> Seq<char> {
    "Hello! Thank you for visiting my website. You seem to be using an ad-blocker. I understand why you do this, but I'd really appreciate if it you would turn it off for my website. These ads help pay for running the website and are done by <a href=\"https://www.ethicalads.io/\">Ethical Ads</a>. I do not receive detailed analytics on the ads and from what I understand neither does Ethical Ads. If you don't want to disable your ad blocker, please consider donating on <a href=\"https://www.patreon.com/cadey\">Patreon</a> or sending some extra cash to <code>xeiaso.eth</code> or <code>0xeA223Ca8968Ca59e0Bc79Ba331c2F6f636A3fB82</code>. It helps fund the website's hosting bills and pay for the expensive technical editor that I use for my longer articles. Thanks and be well!"@
}

/// The ad nag box: the ad client script, the ad container, and a warning
/// box holding either the caller's fragment or the default aside.
pub open spec fn advertiser_nag_markup(nag: Option<String>) -> Seq<char> {
    "<script async src=\"https://media.ethicalads.io/media/client/ethicalads.min.js\"></script><div class=\"adaptive\" data-ea-publisher=\"christinewebsite\" data-ea-type=\"text\" data-ea-style=\"fixedfooter\"><div class=\"warning\">"@
        + (match nag {
        Some(n) => n@,
        None => conv_markup("Cadey"@, "coffee"@, nag_default_body()),
    }) + "</div></div>"@
}

/// Renders the ad nag box; the caller may supply a pre-rendered fragment
/// in place of the default aside.
pub fn advertiser_nag(nag: Option<String>) -> (r: String)
    ensures
        r@ == advertiser_nag_markup(nag),
{
    let mut out = String::new();
    out.append(
        "<script async src=\"https://media.ethicalads.io/media/client/ethicalads.min.js\"></script><div class=\"adaptive\" data-ea-publisher=\"christinewebsite\" data-ea-type=\"text\" data-ea-style=\"fixedfooter\"><div class=\"warning\">",
    );
    match &nag {
        Some(n) => {
            out.append(n.as_str());
        },
        None => {
            let aside = conv(
                "Cadey".to_owned(),
                "coffee".to_owned(),
                "Hello! Thank you for visiting my website. You seem to be using an ad-blocker. I understand why you do this, but I'd really appreciate if it you would turn it off for my website. These ads help pay for running the website and are done by <a href=\"https://www.ethicalads.io/\">Ethical Ads</a>. I do not receive detailed analytics on the ads and from what I understand neither does Ethical Ads. If you don't want to disable your ad blocker, please consider donating on <a href=\"https://www.patreon.com/cadey\">Patreon</a> or sending some extra cash to <code>xeiaso.eth</code> or <code>0xeA223Ca8968Ca59e0Bc79Ba331c2F6f636A3fB82</code>. It helps fund the website's hosting bills and pay for the expensive technical editor that I use for my longer articles. Thanks and be well!".to_owned(),
            );
            out.append(aside.as_str());
        },
    }
    out.append("</div></div>");
    proof {
        assert(out@ =~= advertiser_nag_markup(nag));
    }
    out
}

} // verus!
