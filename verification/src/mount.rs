//! The hydration bridge: embeds an isolated, independently-loaded client
//! widget at a uniquely identified mount point.
//!
//! Each mount allocates a fresh random token that serves both as the DOM
//! anchor id and as a cache-busting query parameter on the widget module
//! URL. The anchor carries a no-script notice that the loader script
//! removes once script execution is confirmed, so the fallback never
//! double-renders. Props travel as JSON text embedded in the script,
//! encoded so that the payload can never close the script context early.

use vstd::prelude::*;
use vstd::string::StringExecFns;
use crate::json::{json_of, script_safed, script_safe, to_json, SerializeError};
use crate::site::conv_markup;

verus! {

/// Whether a character is a lowercase hexadecimal digit.
pub open spec fn is_hex_lower(c: char) -> bool {
    (48 <= c as u32 && c as u32 <= 57) || (97 <= c as u32 && c as u32 <= 102)
}

/// A mount-point token: 32 lowercase hexadecimal digits, the hex form of
/// a 128-bit random identifier with its hyphens stripped.
pub open spec fn valid_token(t: Seq<char>) -> bool {
    t.len() == 32 && forall|i: int| 0 <= i < t.len() ==> is_hex_lower(#[trigger] t[i])
}

/// Relies on uuid's `Uuid::new_v4` and its `Simple` formatter: a fresh
/// 128-bit random identifier written as 32 lowercase hexadecimal digits.
/// Nothing relates one call's result to another's; uniqueness across calls
/// is probabilistic, from the size of the identifier space.
#[verifier::external_body]
pub(crate) fn fresh_token() -> (r: String)
    ensures
        valid_token(r@),
{
    uuid::Uuid::new_v4().simple().to_string()
}

/// The visible notice inside the mount anchor, rendered only when the
/// client executes no script; the loader script removes it first thing.
pub open spec fn noscript_notice() -> Seq<char> {
    "<noscript><div class=\"warning\">"@ + conv_markup(
        "Aoi"@,
        "coffee"@,
        "This dynamic component requires JavaScript to function, sorry!"@,
    ) + "</div></noscript>"@
}

/// The loader script: imports the widget module (with the token as a
/// cache-busting query parameter), looks the anchor up by id, clears its
/// children (the no-script notice), and appends the node the widget's
/// default export returns for the embedded props.
pub open spec fn mount_script(name: Seq<char>, tok: Seq<char>, json: Seq<char>) -> Seq<char> {
    "\n<script type=\"module\">\nimport Component from \"/static/xeact/"@ + name
        + ".js?cacheBuster="@ + tok
        + "\";\n\nconst g = (name) => document.getElementById(name);\nconst x = (elem) => {\n    while (elem.lastChild) {\n        elem.removeChild(elem.lastChild);\n    }\n};\n\nconst root = g(\""@
        + tok + "\");\nx(root);\n\nroot.appendChild(Component("@ + json + "))\n</script>\n"@
}

/// Everything of a mounted fragment after the anchor id: the rest of the
/// anchor element, then the loader script.
pub open spec fn mount_after_id(name: Seq<char>, tok: Seq<char>, json: Seq<char>) -> Seq<char> {
    "\">"@ + noscript_notice() + "</div>"@ + mount_script(name, tok, json)
}

/// A whole mounted fragment: one anchor element whose id is the token,
/// holding the no-script notice, followed by the loader script.
pub open spec fn mount_markup(name: Seq<char>, tok: Seq<char>, json: Seq<char>) -> Seq<char> {
    "<div id=\""@ + tok + mount_after_id(name, tok, json)
}

/// A fragment that mounts the named widget over the given embedded props
/// text, at some valid token.
pub open spec fn is_mounted_fragment(m: Seq<char>, name: Seq<char>, json: Seq<char>) -> bool {
    exists|t: Seq<char>| valid_token(t) && m == mount_markup(name, t, json)
}

/// Builds the mounted fragment for a widget name, a mount token and the
/// already-encoded props text. The props text is inserted verbatim: the
/// caller must hand it through `script_safe` (or build it with
/// `json_quote`) so that it cannot close the script context.
pub fn mount_with_token(name: &str, token: &str, props_json: &str) -> (r: String)
    requires
        name@.len() > 0,
    ensures
        r@ == mount_markup(name@, token@, props_json@),
{
    let notice = crate::site::conv(
        "Aoi".to_owned(),
        "coffee".to_owned(),
        "This dynamic component requires JavaScript to function, sorry!".to_owned(),
    );
    let mut out = String::new();
    out.append("<div id=\"");
    out.append(token);
    out.append("\">");
    out.append("<noscript><div class=\"warning\">");
    out.append(notice.as_str());
    out.append("</div></noscript>");
    out.append("</div>");
    out.append("\n<script type=\"module\">\nimport Component from \"/static/xeact/");
    out.append(name);
    out.append(".js?cacheBuster=");
    out.append(token);
    out.append(
        "\";\n\nconst g = (name) => document.getElementById(name);\nconst x = (elem) => {\n    while (elem.lastChild) {\n        elem.removeChild(elem.lastChild);\n    }\n};\n\nconst root = g(\"",
    );
    out.append(token);
    out.append("\");\nx(root);\n\nroot.appendChild(Component(");
    out.append(props_json);
    out.append("))\n</script>\n");
    proof {
        assert(out@ =~= mount_markup(name@, token@, props_json@));
    }
    out
}

/// Mounts the named client widget with the given props: allocates a fresh
/// token, serializes the props to JSON, encodes the text for safe
/// embedding, and emits the anchor plus loader script. The only
/// admissible failure is props serialization, surfaced as a build-time
/// error; serializing a `serde_json::Value` cannot fail, so the call is
/// owed `Ok` on every input.
pub fn xeact_component(name: &str, data: serde_json::Value) -> (r: Result<String, SerializeError>)
    requires
        name@.len() > 0,
    ensures
        r matches Ok(m) && is_mounted_fragment(m@, name@, script_safed(json_of(data))),
{
    let txt = match to_json(&data) {
        Ok(t) => t,
        Err(_) => {
            // Unreachable: to_json promises Ok for every Value.
            return Err(SerializeError);
        },
    };
    let safe = script_safe(txt.as_str());
    let tok = fresh_token();
    let m = mount_with_token(name, tok.as_str(), safe.as_str());
    proof {
        assert(valid_token(tok@) && m@ == mount_markup(
            name@,
            tok@,
            script_safed(json_of(data)),
        ));
    }
    Ok(m)
}

/// The anchor id of a mounted fragment is its token: the 32 characters
/// after the opening `<div id="` are exactly the token, so the id a
/// fragment answers to can be read back off the markup.
pub proof fn lemma_mount_token_recoverable(name: Seq<char>, tok: Seq<char>, json: Seq<char>)
    requires
        valid_token(tok),
    ensures
        mount_markup(name, tok, json).subrange(9, 41) == tok,
{
    reveal_strlit("<div id=\"");
    let pre = "<div id=\""@;
    assert(pre.len() == 9);
    assert(mount_markup(name, tok, json).subrange(9, 41) =~= tok);
}

/// Fragments mounted with distinct tokens are distinct, and carry
/// distinct anchor ids: page-wide uniqueness of mount points reduces to
/// distinctness of the random tokens, which needs no shared allocator.
pub proof fn lemma_distinct_tokens_distinct_mounts(
    n1: Seq<char>,
    t1: Seq<char>,
    j1: Seq<char>,
    n2: Seq<char>,
    t2: Seq<char>,
    j2: Seq<char>,
)
    requires
        valid_token(t1),
        valid_token(t2),
        t1 != t2,
    ensures
        mount_markup(n1, t1, j1) != mount_markup(n2, t2, j2),
{
    lemma_mount_token_recoverable(n1, t1, j1);
    lemma_mount_token_recoverable(n2, t2, j2);
}

} // verus!
