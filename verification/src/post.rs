//! The post renderer: turns an author and a post into a self-contained
//! HTML fragment with avatar, heading, trust badge, timestamp,
//! attachments, content-warning gate and permalink.
//!
//! The post body is trusted to be pre-sanitized by the collaborator that
//! supplies it and is inserted verbatim; every other interpolated value is
//! HTML-escaped here.

use vstd::prelude::*;
use vstd::string::StringExecFns;
use crate::text::{
    html_escaped,
    has_prefix,
    marker_stripped,
    pad2,
    pad4,
    escape_html,
    str_has_prefix,
    strip_verified,
    push_pad2,
    push_pad4,
};

verus! {

/// The display identity of a post's author.
pub struct Author {
    /// Display name; a verified marker embedded in it is stripped when
    /// rendering.
    pub name: String,
    /// The short handle, shown as `@handle`.
    pub handle: String,
    /// Profile address, the target of the handle link.
    pub url: String,
    /// Avatar image address.
    pub avatar_url: String,
    /// Identity address; the verified badge is shown only when this is
    /// the one hard-coded trusted identity.
    pub id: String,
}

/// One media attachment of a post.
pub struct Attachment {
    /// Media-kind classifier; rendering dispatches on its prefix.
    pub media_type: String,
    /// Address of the media file.
    pub url: String,
    /// Optional human-readable description, used as alt text.
    pub description: Option<String>,
}

/// A publish timestamp in UTC, held as plain calendar fields.
pub struct PubTime {
    pub year: u16,
    pub month: u8,
    pub day: u8,
    pub hour: u8,
    pub minute: u8,
}

impl PubTime {
    /// A well-formed calendar timestamp, renderable in four year digits.
    pub open spec fn wf(self) -> bool {
        &&& 1 <= self.month <= 12
        &&& 1 <= self.day <= 31
        &&& self.hour < 24
        &&& self.minute < 60
        &&& self.year <= 9999
    }
}

/// One social-media post.
pub struct Post {
    /// Pre-sanitized HTML body, inserted verbatim.
    pub content: String,
    /// The attachments, owned by the post for the duration of rendering.
    pub attachments: Vec<Attachment>,
    /// Optional content warning; when present the whole body is placed
    /// behind a collapsed disclosure labeled with it.
    pub summary: Option<String>,
    /// Publish timestamp.
    pub published: PubTime,
    /// Internal id, the permalink fallback.
    pub id: String,
    /// Canonical address of the post, if one is set.
    pub url: Option<String>,
}

/// The fixed timestamp pattern: a literal month token, two-digit month,
/// day, four-digit year, 24-hour time and an explicit UTC label.
pub open spec fn timestamp_text(t: PubTime) -> Seq<char> {
    "M"@ + pad2(t.month as int) + " "@ + pad2(t.day as int) + " "@ + pad4(t.year as int) + " "@
        + pad2(t.hour as int) + ":"@ + pad2(t.minute as int) + " (UTC)"@
}

/// Writes a timestamp in the fixed pattern.
pub fn format_timestamp(t: &PubTime) -> (r: String)
    requires
        t.wf(),
    ensures
        r@ == timestamp_text(*t),
{
    let mut out = String::new();
    out.append("M");
    push_pad2(&mut out, t.month);
    out.append(" ");
    push_pad2(&mut out, t.day);
    out.append(" ");
    push_pad4(&mut out, t.year);
    out.append(" ");
    push_pad2(&mut out, t.hour);
    out.append(":");
    push_pad2(&mut out, t.minute);
    out.append(" (UTC)");
    proof {
        assert(out@ =~= timestamp_text(*t));
    }
    out
}

/// The alt text of an attachment: its description, or a fixed notice.
pub open spec fn attachment_description(a: Attachment) -> Seq<char> {
    match a.description {
        Some(d) => d@,
        None => "no description provided"@,
    }
}

/// An image attachment: the image, wrapped in a link to the media file.
pub open spec fn image_markup(a: Attachment) -> Seq<char> {
    "<a href=\""@ + html_escaped(a.url@) + "\"><img width=\"100%\" height=\"100%\" src=\""@
        + html_escaped(a.url@) + "\" alt=\""@ + html_escaped(attachment_description(a))
        + "\"></a>"@
}

/// A video attachment: a native player with a textual fallback link.
pub open spec fn video_markup(a: Attachment) -> Seq<char> {
    "<video width=\"100%\" height=\"100%\" controls><source src=\""@ + html_escaped(a.url@)
        + "\" type=\""@ + html_escaped(a.media_type@)
        + "\">Your browser does not support the video tag, see this URL: <a href=\""@
        + html_escaped(a.url@) + "\">"@ + html_escaped(a.url@) + "</a></video>"@
}

/// A media kind this renderer does not recognize: neither image nor video.
pub open spec fn unsupported_kind(a: Attachment) -> bool {
    !has_prefix(a.media_type@, "image/"@) && !has_prefix(a.media_type@, "video/"@)
}

/// How one attachment renders, dispatching purely on the kind prefix;
/// unrecognized kinds render nothing visible.
pub open spec fn attachment_markup(a: Attachment) -> Seq<char> {
    if has_prefix(a.media_type@, "image/"@) {
        image_markup(a)
    } else if has_prefix(a.media_type@, "video/"@) {
        video_markup(a)
    } else {
        Seq::empty()
    }
}

/// The attachments of a post, rendered in order.
pub open spec fn attachments_markup(atts: Seq<Attachment>) -> Seq<char>
    decreases atts.len(),
{
    if atts.len() == 0 {
        Seq::empty()
    } else {
        attachment_markup(atts[0]) + attachments_markup(atts.drop_first())
    }
}

pub proof fn lemma_attachments_markup_push(atts: Seq<Attachment>, a: Attachment)
    ensures
        attachments_markup(atts.push(a)) == attachments_markup(atts) + attachment_markup(a),
    decreases atts.len(),
{
    if atts.len() == 0 {
        assert(atts.push(a).drop_first() =~= Seq::<Attachment>::empty());
        assert(atts.push(a)[0] == a);
        assert(attachments_markup(Seq::<Attachment>::empty()) =~= Seq::<char>::empty());
        assert(atts =~= Seq::<Attachment>::empty());
        assert(attachment_markup(a) + Seq::<char>::empty() =~= attachment_markup(a));
        assert(Seq::<char>::empty() + attachment_markup(a) =~= attachment_markup(a));
    } else {
        lemma_attachments_markup_push(atts.drop_first(), a);
        assert(atts.push(a).drop_first() =~= atts.drop_first().push(a));
        assert(attachment_markup(atts[0]) + (attachments_markup(atts.drop_first())
            + attachment_markup(a)) =~= (attachment_markup(atts[0]) + attachments_markup(
            atts.drop_first(),
        )) + attachment_markup(a));
        assert(atts.push(a)[0] == atts[0]);
    }
}

/// Renders one attachment.
pub fn render_attachment(a: &Attachment) -> (r: String)
    ensures
        r@ == attachment_markup(*a),
{
    if str_has_prefix(a.media_type.as_str(), "image/") {
        let url_esc = escape_html(a.url.as_str());
        let desc_esc = match &a.description {
            Some(d) => escape_html(d.as_str()),
            None => escape_html("no description provided"),
        };
        let mut out = String::new();
        out.append("<a href=\"");
        out.append(url_esc.as_str());
        out.append("\"><img width=\"100%\" height=\"100%\" src=\"");
        out.append(url_esc.as_str());
        out.append("\" alt=\"");
        out.append(desc_esc.as_str());
        out.append("\"></a>");
        proof {
            assert(out@ =~= attachment_markup(*a));
        }
        out
    } else if str_has_prefix(a.media_type.as_str(), "video/") {
        let url_esc = escape_html(a.url.as_str());
        let kind_esc = escape_html(a.media_type.as_str());
        let mut out = String::new();
        out.append("<video width=\"100%\" height=\"100%\" controls><source src=\"");
        out.append(url_esc.as_str());
        out.append("\" type=\"");
        out.append(kind_esc.as_str());
        out.append("\">Your browser does not support the video tag, see this URL: <a href=\"");
        out.append(url_esc.as_str());
        out.append("\">");
        out.append(url_esc.as_str());
        out.append("</a></video>");
        proof {
            assert(out@ =~= attachment_markup(*a));
        }
        out
    } else {
        let out = String::new();
        proof {
            assert(out@ =~= attachment_markup(*a));
        }
        out
    }
}

/// Renders the attachments of a post in order.
pub fn render_attachments(v: &Vec<Attachment>) -> (r: String)
    ensures
        r@ == attachments_markup(v@),
{
    let mut out = String::new();
    let mut i: usize = 0;
    proof {
        assert(attachments_markup(v@.take(0)) =~= Seq::<char>::empty());
    }
    while i < v.len()
        invariant
            i <= v@.len(),
            out@ == attachments_markup(v@.take(i as int)),
        decreases v@.len() - i,
    {
        let piece = render_attachment(&v[i]);
        out.append(piece.as_str());
        proof {
            lemma_attachments_markup_push(v@.take(i as int), v@[i as int]);
            assert(v@.take(i + 1 as int) =~= v@.take(i as int).push(v@[i as int]));
        }
        i = i + 1;
    }
    proof {
        assert(v@.take(v@.len() as int) =~= v@);
    }
    out
}

/// The permalink target: the post's canonical address if one is set,
/// otherwise its internal id.
pub open spec fn permalink_target(t: Post) -> Seq<char> {
    match t.url {
        Some(u) => u@,
        None => t.id@,
    }
}

/// The permalink of a post.
pub open spec fn permalink_markup(t: Post) -> Seq<char> {
    "<a href=\""@ + html_escaped(permalink_target(t)) + "\">Link</a>"@
}

/// The content section of a post: the verbatim body, the attachments, a
/// line break whenever at least one attachment exists (whether or not any
/// produced visible output), and the permalink.
pub open spec fn content_markup(t: Post) -> Seq<char> {
    t.content@ + attachments_markup(t.attachments@) + (if t.attachments@.len() != 0 {
        "<br>"@
    } else {
        Seq::<char>::empty()
    }) + permalink_markup(t)
}

/// The content section behind its gate: with a content warning the whole
/// section sits in a disclosure that is collapsed by default and whose
/// label is the warning text itself; without one it renders
/// unconditionally visible.
pub open spec fn gated_content(t: Post) -> Seq<char> {
    match t.summary {
        Some(w) => "<details><summary>"@ + html_escaped(w@) + "</summary>"@ + content_markup(t)
            + "</details>"@,
        None => content_markup(t),
    }
}

/// The one identity whose posts carry the verified badge.
pub open spec fn trusted_identity() -> Seq<char> {
    "https://pony.social/users/cadey"@
}

/// The inline verified badge, shown only for the trusted identity.
pub open spec fn verified_badge(author: Author) -> Seq<char> {
    if author.id@ == trusted_identity() {
        "<img class=\"verified\" src=\"https://cdn.xeiaso.net/file/christine-static/blog/verified.png\">"@
    } else {
        Seq::<char>::empty()
    }
}

/// A rendered post: avatar, heading line (stripped display name, badge,
/// linked handle, timestamp) and the gated content section.
pub open spec fn toot_markup(author: Author, post: Post) -> Seq<char> {
    "<div class=\"media\"><div class=\"media-left\"><div class=\"avatarholder\"><img src=\""@
        + html_escaped(author.avatar_url@) + "\" alt=\"the profile picture for "@ + html_escaped(
        author.handle@,
    ) + "\"></div></div><div class=\"media-body\"><div class=\"media-heading\">"@ + html_escaped(
        marker_stripped(author.name@),
    ) + verified_badge(author) + " <a href=\""@ + html_escaped(author.url@) + "\">@"@
        + html_escaped(author.handle@) + "</a><br>"@ + timestamp_text(post.published)
        + "</div><div class=\"media-content\">"@ + gated_content(post) + "</div></div></div>"@
}

/// Renders a post by its author into a self-contained fragment.
pub fn toot_embed(author: Author, post: Post) -> (r: String)
    requires
        post.published.wf(),
    ensures
        r@ == toot_markup(author, post),
{
    let mut content = String::new();
    content.append(post.content.as_str());
    let atts = render_attachments(&post.attachments);
    content.append(atts.as_str());
    if post.attachments.len() != 0 {
        content.append("<br>");
    }
    content.append("<a href=\"");
    let target_esc = match &post.url {
        Some(u) => escape_html(u.as_str()),
        None => escape_html(post.id.as_str()),
    };
    content.append(target_esc.as_str());
    content.append("\">Link</a>");
    proof {
        assert(content@ =~= content_markup(post));
    }
    let mut gated = String::new();
    match &post.summary {
        Some(w) => {
            let w_esc = escape_html(w.as_str());
            gated.append("<details><summary>");
            gated.append(w_esc.as_str());
            gated.append("</summary>");
            gated.append(content.as_str());
            gated.append("</details>");
        },
        None => {
            gated.append(content.as_str());
        },
    }
    proof {
        assert(gated@ =~= gated_content(post));
    }
    let stripped = strip_verified(author.name.as_str());
    let name_esc = escape_html(stripped.as_str());
    let avatar_esc = escape_html(author.avatar_url.as_str());
    let handle_esc = escape_html(author.handle.as_str());
    let profile_esc = escape_html(author.url.as_str());
    let when = format_timestamp(&post.published);
    let trusted = "https://pony.social/users/cadey".to_owned();
    let mut out = String::new();
    out.append("<div class=\"media\"><div class=\"media-left\"><div class=\"avatarholder\"><img src=\"");
    out.append(avatar_esc.as_str());
    out.append("\" alt=\"the profile picture for ");
    out.append(handle_esc.as_str());
    out.append("\"></div></div><div class=\"media-body\"><div class=\"media-heading\">");
    out.append(name_esc.as_str());
    if author.id == trusted {
        out.append(
            "<img class=\"verified\" src=\"https://cdn.xeiaso.net/file/christine-static/blog/verified.png\">",
        );
    }
    out.append(" <a href=\"");
    out.append(profile_esc.as_str());
    out.append("\">@");
    out.append(handle_esc.as_str());
    out.append("</a><br>");
    out.append(when.as_str());
    out.append("</div><div class=\"media-content\">");
    out.append(gated.as_str());
    out.append("</div></div></div>");
    proof {
        assert(out@ =~= toot_markup(author, post));
    }
    out
}

/// A post with no attachments emits no attachment block and no trailing
/// line break: its content section is the verbatim body followed directly
/// by the permalink.
pub proof fn lemma_no_attachments_no_break(t: Post)
    requires
        t.attachments@.len() == 0,
    ensures
        content_markup(t) == t.content@ + permalink_markup(t),
{
    assert(attachments_markup(t.attachments@) == Seq::<char>::empty());
    assert(t.content@ + Seq::<char>::empty() + Seq::<char>::empty() + permalink_markup(t) =~= t
        .content@ + permalink_markup(t));
}

pub proof fn lemma_unsupported_render_nothing(atts: Seq<Attachment>)
    requires
        forall|i: int| 0 <= i < atts.len() ==> unsupported_kind(#[trigger] atts[i]),
    ensures
        attachments_markup(atts) == Seq::<char>::empty(),
    decreases atts.len(),
{
    if atts.len() == 0 {
    } else {
        assert(unsupported_kind(atts[0]));
        assert(forall|i: int|
            0 <= i < atts.drop_first().len() ==> unsupported_kind(#[trigger] atts.drop_first()[i]));
        lemma_unsupported_render_nothing(atts.drop_first());
        assert(Seq::<char>::empty() + Seq::<char>::empty() =~= Seq::<char>::empty());
    }
}

/// Attachments of unrecognized kinds render nothing visible, yet their
/// presence still yields the trailing line break: a post with only
/// unsupported attachments gets a break with nothing visible above it.
pub proof fn lemma_unsupported_attachments_only_break(t: Post)
    requires
        t.attachments@.len() > 0,
        forall|i: int|
            0 <= i < t.attachments@.len() ==> unsupported_kind(#[trigger] t.attachments@[i]),
    ensures
        content_markup(t) == t.content@ + "<br>"@ + permalink_markup(t),
{
    lemma_unsupported_render_nothing(t.attachments@);
    assert(t.content@ + Seq::<char>::empty() + "<br>"@ + permalink_markup(t) =~= t.content@
        + "<br>"@ + permalink_markup(t));
}

/// With a content warning the whole content section is wrapped in a
/// disclosure, collapsed by default, whose label is the warning text
/// itself; without one, no disclosure wrapper appears.
pub proof fn lemma_warning_gates_content(t: Post)
    ensures
        t.summary matches Some(w) ==> gated_content(t) == "<details><summary>"@ + html_escaped(w@)
            + "</summary>"@ + content_markup(t) + "</details>"@,
        t.summary is None ==> gated_content(t) == content_markup(t),
{
}

/// Attachment rendering dispatches purely on the kind prefix: an image
/// kind gives a clickable image linking to the attachment address, a
/// video kind gives a native player, any other kind gives nothing.
pub proof fn lemma_attachment_dispatch(a: Attachment)
    ensures
        has_prefix(a.media_type@, "image/"@) ==> attachment_markup(a) == image_markup(a),
        !has_prefix(a.media_type@, "image/"@) && has_prefix(a.media_type@, "video/"@)
            ==> attachment_markup(a) == video_markup(a),
        unsupported_kind(a) ==> attachment_markup(a) == Seq::<char>::empty(),
{
}

} // verus!
