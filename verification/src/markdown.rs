//! Markdown to HTML: the frontmatter card, the rewriting of image references
//! that the renderer would not take, and the rendering itself. Pattern
//! matching, YAML and rendering are the work of `regex`, `serde_yaml` and
//! `pulldown_cmark`, each behind a trusted function.

use crate::text::{opt_view, str_replace, text_replaced};
use vstd::prelude::*;
use vstd::string::*;

verus! {

/// The pattern of a frontmatter block: the document's first lines, between
/// two lines of three dashes.
pub const FRONTMATTER_PATTERN: &'static str = "(?s)^---\\r?\\n(.*?)\\r?\\n---";

/// The pattern of an embedded wikilink image, `![[name]]`.
pub const WIKILINK_PATTERN: &'static str = "!\\[\\[(.*?)\\]\\]";

/// What an embedded wikilink image is rewritten to: an image whose target
/// stands in angle brackets, so that it may hold spaces.
pub const WIKILINK_REPLACEMENT: &'static str = "![$1](<$1>)";

/// The pattern of an image whose target holds white space and does not stand
/// in angle brackets.
pub const SPACED_IMAGE_PATTERN: &'static str =
    "!\\[(.*?)\\]\\(([^<>\\s]+(?:\\s+[^<>\\s]+)+)\\)";

/// What such an image is rewritten to.
pub const SPACED_IMAGE_REPLACEMENT: &'static str = "![$1](<$2>)";

/// The extensions of the markdown renderer that the viewer turns on, as the
/// renderer's option bits: tables (2), footnotes (4), strikethrough (8) and
/// task lists (16).
pub const RENDER_OPTIONS: u32 = 30;

/// The value of one frontmatter field.
#[derive(Debug, Clone)]
pub enum FrontmatterValue {
    /// A sequence: each item's text, or `None` for an item that is no string.
    List(Vec<Option<String>>),
    /// Anything else: its text where it is a string, and its debug rendering.
    Scalar { text: Option<String>, debug: String },
}

pub enum FrontmatterValueView {
    List(Seq<Option<Seq<char>>>),
    Scalar { text: Option<Seq<char>>, debug: Seq<char> },
}

/// The views of a list's items.
pub open spec fn items_view(items: Seq<Option<String>>) -> Seq<Option<Seq<char>>> {
    Seq::new(items.len(), |i: int| opt_view(items[i]))
}

impl View for FrontmatterValue {
    type V = FrontmatterValueView;

    open spec fn view(&self) -> FrontmatterValueView {
        match self {
            FrontmatterValue::List(items) => FrontmatterValueView::List(items_view(items@)),
            FrontmatterValue::Scalar { text, debug } => FrontmatterValueView::Scalar {
                text: opt_view(*text),
                debug: debug@,
            },
        }
    }
}

/// One field of a frontmatter mapping.
#[derive(Debug, Clone)]
pub struct FrontmatterField {
    /// The key's text, or `None` for a key that is no string.
    pub key: Option<String>,
    pub value: FrontmatterValue,
}

pub struct FrontmatterFieldView {
    pub key: Option<Seq<char>>,
    pub value: FrontmatterValueView,
}

impl View for FrontmatterField {
    type V = FrontmatterFieldView;

    open spec fn view(&self) -> FrontmatterFieldView {
        FrontmatterFieldView { key: opt_view(self.key), value: self.value@ }
    }
}

impl DeepView for FrontmatterField {
    type V = FrontmatterFieldView;

    open spec fn deep_view(&self) -> FrontmatterFieldView {
        self@
    }
}

/// The view of an optional list of fields.
pub open spec fn opt_fields_view(fields: Option<Vec<FrontmatterField>>) -> Option<
    Seq<FrontmatterFieldView>,
> {
    match fields {
        Some(f) => Some(f.deep_view()),
        None => None,
    }
}

/// The text that capture group `group` took in the first match of `pattern`
/// in `text`, as `regex::Regex::captures` finds it; `None` where there is no
/// match, the group took no part, or the pattern does not compile.
pub uninterp spec fn captured(pattern: Seq<char>, text: Seq<char>, group: usize) -> Option<
    Seq<char>,
>;

/// `text` with the first match of `pattern` replaced, as
/// `regex::Regex::replace` gives it; `None` where the pattern does not
/// compile.
pub uninterp spec fn replaced_first(
    pattern: Seq<char>,
    text: Seq<char>,
    replacement: Seq<char>,
) -> Option<Seq<char>>;

/// `text` with every match of `pattern` replaced, as
/// `regex::Regex::replace_all` gives it; `None` where the pattern does not
/// compile.
pub uninterp spec fn replaced_all(
    pattern: Seq<char>,
    text: Seq<char>,
    replacement: Seq<char>,
) -> Option<Seq<char>>;

/// The fields of the YAML mapping that `yaml` holds, in the order in which
/// it holds them, as `serde_yaml::from_str` reads it; `None` where `yaml` is
/// no YAML or no mapping.
pub uninterp spec fn frontmatter_fields(yaml: Seq<char>) -> Option<Seq<FrontmatterFieldView>>;

/// The HTML that `pulldown_cmark` renders for `markdown` with the option
/// bits `options`.
pub uninterp spec fn rendered(markdown: Seq<char>, options: u32) -> Seq<char>;

/// Calls `regex::Regex::captures` with the pattern compiled by
/// `regex::Regex::new`. Trusted: the result is a function of pattern, text
/// and group alone, named `captured`.
#[verifier::external_body]
pub(crate) fn regex_captured(pattern: &str, text: &str, group: usize) -> (part: Option<String>)
    ensures
        opt_view(part) == captured(pattern@, text@, group),
{
    let regex = regex::Regex::new(pattern).ok()?;
    let found = regex.captures(text)?;
    found.get(group).map(|part| part.as_str().to_owned())
}

/// Calls `regex::Regex::replace` with the pattern compiled by
/// `regex::Regex::new`. Trusted: the result is a function of the three texts
/// alone, named `replaced_first`.
#[verifier::external_body]
pub(crate) fn regex_replace_first(
    pattern: &str,
    text: &str,
    replacement: &str,
) -> (out: Option<String>)
    ensures
        opt_view(out) == replaced_first(pattern@, text@, replacement@),
{
    let regex = regex::Regex::new(pattern).ok()?;
    Some(regex.replace(text, replacement).into_owned())
}

/// Calls `regex::Regex::replace_all` with the pattern compiled by
/// `regex::Regex::new`. Trusted: the result is a function of the three texts
/// alone, named `replaced_all`.
#[verifier::external_body]
pub(crate) fn regex_replace_all(
    pattern: &str,
    text: &str,
    replacement: &str,
) -> (out: Option<String>)
    ensures
        opt_view(out) == replaced_all(pattern@, text@, replacement@),
{
    let regex = regex::Regex::new(pattern).ok()?;
    Some(regex.replace_all(text, replacement).into_owned())
}

/// Calls `serde_yaml::from_str` and hands out the mapping's fields as plain
/// values. Trusted: the result is a function of the text alone, named
/// `frontmatter_fields`.
#[verifier::external_body]
pub(crate) fn parse_frontmatter(yaml: &str) -> (fields: Option<Vec<FrontmatterField>>)
    ensures
        opt_fields_view(fields) == frontmatter_fields(yaml@),
{
    let document: serde_yaml::Value = serde_yaml::from_str(yaml).ok()?;
    let fields = document.as_mapping()?.iter().map(|(key, value)| FrontmatterField {
        key: key.as_str().map(str::to_owned),
        value: match value {
            serde_yaml::Value::Sequence(items) => FrontmatterValue::List(
                items.iter().map(|item| item.as_str().map(str::to_owned)).collect(),
            ),
            other => FrontmatterValue::Scalar {
                text: other.as_str().map(str::to_owned),
                debug: format!("{:?}", other),
            },
        },
    });
    Some(fields.collect())
}

/// Calls `pulldown_cmark::html::push_html` on a `pulldown_cmark::Parser`.
/// Trusted: the result is a function of text and option bits alone, named
/// `rendered`.
#[verifier::external_body]
pub(crate) fn render_markdown(markdown: &str, options: u32) -> (html: String)
    ensures
        html@ == rendered(markdown@, options),
{
    let mut html = String::new();
    let options = pulldown_cmark::Options::from_bits_truncate(options);
    pulldown_cmark::html::push_html(&mut html, pulldown_cmark::Parser::new_ext(markdown, options));
    html
}

/// The text of a list item without its wikilink brackets.
pub open spec fn tag_text(item: Option<Seq<char>>) -> Seq<char> {
    let text = match item {
        Some(t) => t,
        None => Seq::empty(),
    };
    text_replaced(text_replaced(text, "[["@, ""@), "]]"@, ""@)
}

/// The HTML of the items of a list, one tag each.
pub open spec fn tags_html(items: Seq<Option<Seq<char>>>) -> Seq<char>
    decreases items.len(),
{
    if items.len() == 0 {
        Seq::empty()
    } else {
        tags_html(items.drop_last()) + "<span class=\"frontmatter-tag\">"@ + tag_text(items.last())
            + "</span>"@
    }
}

/// The HTML of a field's value: a list as a row of tags, a string as it is,
/// anything else in its debug rendering.
pub open spec fn value_html(value: FrontmatterValueView) -> Seq<char> {
    match value {
        FrontmatterValueView::List(items) => "<div class=\"frontmatter-tags\">"@ + tags_html(items)
            + "</div>"@,
        FrontmatterValueView::Scalar { text, debug } => match text {
            Some(t) => t,
            None => debug,
        },
    }
}

/// The key under which a field is shown: its text, or `unknown` for a key
/// that is no string.
pub open spec fn shown_key(key: Option<Seq<char>>) -> Seq<char> {
    match key {
        Some(k) => k,
        None => "unknown"@,
    }
}

/// Whether a field is left out of the card: the keys `cssclass` and `status`.
pub open spec fn hidden_key(key: Seq<char>) -> bool {
    key == "cssclass"@ || key == "status"@
}

/// The HTML of one field; nothing for a hidden one.
pub open spec fn field_html(field: FrontmatterFieldView) -> Seq<char> {
    if hidden_key(shown_key(field.key)) {
        Seq::empty()
    } else {
        "<div class=\"frontmatter-item\">"@ + "<span class=\"frontmatter-key\">"@ + shown_key(
            field.key,
        ) + "</span>"@ + "<span class=\"frontmatter-value\">"@ + value_html(field.value)
            + "</span>"@ + "</div>"@
    }
}

/// The HTML of the fields, in order.
pub open spec fn fields_html(fields: Seq<FrontmatterFieldView>) -> Seq<char>
    decreases fields.len(),
{
    if fields.len() == 0 {
        Seq::empty()
    } else {
        fields_html(fields.drop_last()) + field_html(fields.last())
    }
}

/// The metadata card that stands before the rendered document.
pub open spec fn card_html(fields: Seq<FrontmatterFieldView>) -> Seq<char> {
    "<div class=\"frontmatter-card\">"@ + "<div class=\"frontmatter-header\">Metadata</div>"@
        + "<div class=\"frontmatter-content\">"@ + fields_html(fields) + "</div></div>"@
}

/// The frontmatter of a document: the fields of its leading block, where it
/// has one that holds a YAML mapping.
pub open spec fn frontmatter_of(content: Seq<char>) -> Option<Seq<FrontmatterFieldView>> {
    match captured(FRONTMATTER_PATTERN@, content, 1) {
        Some(yaml) => frontmatter_fields(yaml),
        None => None,
    }
}

/// What a replacement gave, or the text as it was where the pattern did not
/// compile.
pub open spec fn or_unchanged(replaced: Option<Seq<char>>, text: Seq<char>) -> Seq<char> {
    match replaced {
        Some(out) => out,
        None => text,
    }
}

/// The markdown that is left to render: the document without its
/// frontmatter block, where that was read.
pub open spec fn body_of(content: Seq<char>) -> Seq<char> {
    if frontmatter_of(content) is Some {
        or_unchanged(replaced_first(FRONTMATTER_PATTERN@, content, ""@), content)
    } else {
        content
    }
}

/// The markdown with its wikilink images rewritten.
pub open spec fn linked(markdown: Seq<char>) -> Seq<char> {
    or_unchanged(replaced_all(WIKILINK_PATTERN@, markdown, WIKILINK_REPLACEMENT@), markdown)
}

/// The markdown with its image references made safe for the renderer:
/// wikilink images first, then images whose target holds white space.
pub open spec fn rewritten(markdown: Seq<char>) -> Seq<char> {
    or_unchanged(
        replaced_all(SPACED_IMAGE_PATTERN@, linked(markdown), SPACED_IMAGE_REPLACEMENT@),
        linked(markdown),
    )
}

/// The HTML of a document: its metadata card, where it has frontmatter,
/// and its rendered body.
pub open spec fn document_html(content: Seq<char>) -> Seq<char> {
    let card = match frontmatter_of(content) {
        Some(fields) => card_html(fields),
        None => Seq::empty(),
    };
    card + rendered(rewritten(body_of(content)), RENDER_OPTIONS)
}

/// Appends the tags of a list to `html`.
fn push_tags(html: &mut String, items: &Vec<Option<String>>)
    ensures
        final(html)@ == old(html)@ + tags_html(items_view(items@)),
{
    let ghost before = html@;
    let mut i: usize = 0;
    while i < items.len()
        invariant
            i <= items.len(),
            html@ == before + tags_html(items_view(items@).take(i as int)),
        decreases items.len() - i,
    {
        let ghost seen = items_view(items@).take(i as int);
        let ghost next = items_view(items@).take(i + 1);
        assert(next.drop_last() == seen);
        assert(next.last() == opt_view(items@[i as int]));
        let text = match &items[i] {
            Some(t) => str_replace(t.as_str(), "[[", ""),
            None => str_replace("", "[[", ""),
        };
        assert("".view() =~= Seq::<char>::empty()) by {
            reveal_strlit("");
        }
        let clean = str_replace(text.as_str(), "]]", "");
        assert(clean@ == tag_text(next.last()));
        html.append("<span class=\"frontmatter-tag\">");
        html.append(clean.as_str());
        html.append("</span>");
        assert(html@ == before + tags_html(next)) by {
            assert(html@ =~= before + (tags_html(seen) + "<span class=\"frontmatter-tag\">"@
                + clean@ + "</span>"@));
        }
        i = i + 1;
    }
    assert(items_view(items@).take(i as int) == items_view(items@));
}

/// Appends one field to `html`.
fn push_field(html: &mut String, field: &FrontmatterField)
    ensures
        final(html)@ == old(html)@ + field_html(field@),
{
    let ghost before = html@;
    let key: String = match &field.key {
        Some(k) => k.clone(),
        None => "unknown".to_owned(),
    };
    if *key.as_str() == *"cssclass" || *key.as_str() == *"status" {
        assert(html@ =~= before + field_html(field@));
        return ;
    }
    html.append("<div class=\"frontmatter-item\">");
    html.append("<span class=\"frontmatter-key\">");
    html.append(key.as_str());
    html.append("</span>");
    html.append("<span class=\"frontmatter-value\">");
    let ghost opened = html@;
    match &field.value {
        FrontmatterValue::List(items) => {
            html.append("<div class=\"frontmatter-tags\">");
            push_tags(html, items);
            html.append("</div>");
        },
        FrontmatterValue::Scalar { text, debug } => {
            match text {
                Some(t) => html.append(t.as_str()),
                None => html.append(debug.as_str()),
            }
        },
    }
    assert(html@ =~= opened + value_html(field@.value));
    html.append("</span>");
    html.append("</div>");
}

/// Renders the metadata card of a frontmatter mapping.
pub fn render_frontmatter(fields: &Vec<FrontmatterField>) -> (html: String)
    ensures
        html@ == card_html(fields.deep_view()),
{
    let mut html = String::new();
    html.append("<div class=\"frontmatter-card\">");
    html.append("<div class=\"frontmatter-header\">Metadata</div>");
    html.append("<div class=\"frontmatter-content\">");
    let ghost opened = html@;
    let mut i: usize = 0;
    while i < fields.len()
        invariant
            i <= fields.len(),
            html@ == opened + fields_html(fields.deep_view().take(i as int)),
        decreases fields.len() - i,
    {
        let ghost seen = fields.deep_view().take(i as int);
        let ghost next = fields.deep_view().take(i + 1);
        assert(next.drop_last() == seen);
        assert(next.last() == fields@[i as int]@);
        push_field(&mut html, &fields[i]);
        assert(html@ =~= opened + fields_html(next));
        i = i + 1;
    }
    assert(fields.deep_view().take(i as int) == fields.deep_view());
    html.append("</div></div>");
    html
}

/// Rewrites the image references that the renderer would not take.
pub fn rewrite_images(markdown: &str) -> (out: String)
    ensures
        out@ == rewritten(markdown@),
{
    let linked = match regex_replace_all(WIKILINK_PATTERN, markdown, WIKILINK_REPLACEMENT) {
        Some(out) => out,
        None => markdown.to_owned(),
    };
    match regex_replace_all(SPACED_IMAGE_PATTERN, linked.as_str(), SPACED_IMAGE_REPLACEMENT) {
        Some(out) => out,
        None => linked,
    }
}

/// Reads the frontmatter of a document.
pub fn read_frontmatter(content: &str) -> (fields: Option<Vec<FrontmatterField>>)
    ensures
        opt_fields_view(fields) == frontmatter_of(content@),
{
    match regex_captured(FRONTMATTER_PATTERN, content, 1) {
        Some(yaml) => parse_frontmatter(yaml.as_str()),
        None => None,
    }
}

/// Turns a markdown document into HTML.
pub fn parse_markdown_to_html(content: String) -> (html: String)
    ensures
        html@ == document_html(content@),
{
    let mut html = String::new();
    let body = match read_frontmatter(content.as_str()) {
        Some(fields) => {
            let card = render_frontmatter(&fields);
            html.append(card.as_str());
            match regex_replace_first(FRONTMATTER_PATTERN, content.as_str(), "") {
                Some(body) => body,
                None => content,
            }
        },
        None => content,
    };
    let markdown = rewrite_images(body.as_str());
    let rendered = render_markdown(markdown.as_str(), RENDER_OPTIONS);
    html.append(rendered.as_str());
    html
}

} // verus!
