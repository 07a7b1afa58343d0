use readtext::markdown::{
    parse_markdown_to_html, read_frontmatter, render_frontmatter, rewrite_images,
    FrontmatterField, FrontmatterValue,
};

fn scalar(key: &str, text: &str) -> FrontmatterField {
    FrontmatterField {
        key: Some(key.to_string()),
        value: FrontmatterValue::Scalar {
            text: Some(text.to_string()),
            debug: format!("String({:?})", text),
        },
    }
}

#[test]
fn test_parse_wikilink_with_spaces() {
    let markdown = "![[Kwin effect glass-20260220.png]]";
    let html = parse_markdown_to_html(markdown.to_string());
    assert!(html.contains("<img src=\"Kwin%20effect%20glass-20260220.png\""));
}

#[test]
fn test_parse_standard_image_with_spaces() {
    let markdown = "![test](Kwin effect glass-20260220.png)";
    let html = parse_markdown_to_html(markdown.to_string());
    assert!(html.contains("<img src=\"Kwin%20effect%20glass-20260220.png\""));
}

#[test]
fn test_parse_standard_image_no_spaces() {
    let markdown = "![test](image.png)";
    let html = parse_markdown_to_html(markdown.to_string());
    assert!(html.contains("<img src=\"image.png\""));
}

#[test]
fn wikilink_images_get_bracketed_targets() {
    assert_eq!(rewrite_images("see ![[a b.png]] and ![[c.png]]"), "see ![a b.png](<a b.png>) and ![c.png](<c.png>)");
}

#[test]
fn spaced_image_targets_get_brackets() {
    assert_eq!(rewrite_images("![alt](my image.png)"), "![alt](<my image.png>)");
    assert_eq!(rewrite_images("![alt](image.png)"), "![alt](image.png)");
    assert_eq!(rewrite_images("![alt](<my image.png>)"), "![alt](<my image.png>)");
}

#[test]
fn plain_markdown_is_not_rewritten() {
    assert_eq!(rewrite_images("# title\n\ntext [[link]]"), "# title\n\ntext [[link]]");
}

#[test]
fn document_without_frontmatter_has_no_card() {
    assert_eq!(parse_markdown_to_html("# Title".to_string()), "<h1>Title</h1>\n");
    assert!(read_frontmatter("# Title").is_none());
    assert_eq!(parse_markdown_to_html(String::new()), "");
}

#[test]
fn renderer_has_tables_strikethrough_task_lists_and_footnotes() {
    let html = parse_markdown_to_html(
        "| a | b |\n|---|---|\n| 1 | 2 |\n\n~~gone~~\n\n- [x] done\n\nnote[^1]\n\n[^1]: the note\n"
            .to_string(),
    );
    assert!(html.contains("<table>"));
    assert!(html.contains("<del>gone</del>"));
    assert!(html.contains("type=\"checkbox\""));
    assert!(html.contains("footnote-definition"));
}

#[test]
fn frontmatter_is_read_in_order() {
    let fields = read_frontmatter("---\ntitle: Hello\ntags:\n  - a\n  - 3\ncount: 7\n---\nbody").unwrap();
    assert_eq!(fields.len(), 3);
    assert_eq!(fields[0].key.as_deref(), Some("title"));
    match &fields[0].value {
        FrontmatterValue::Scalar { text, .. } => assert_eq!(text.as_deref(), Some("Hello")),
        other => panic!("unexpected value {:?}", other),
    }
    assert_eq!(fields[1].key.as_deref(), Some("tags"));
    match &fields[1].value {
        FrontmatterValue::List(items) => {
            assert_eq!(items, &vec![Some("a".to_string()), None]);
        }
        other => panic!("unexpected value {:?}", other),
    }
    assert_eq!(fields[2].key.as_deref(), Some("count"));
    match &fields[2].value {
        FrontmatterValue::Scalar { text, debug } => {
            assert_eq!(text, &None);
            assert_eq!(debug, "Number(7)");
        }
        other => panic!("unexpected value {:?}", other),
    }
}

#[test]
fn frontmatter_that_is_no_mapping_is_not_read() {
    assert!(read_frontmatter("---\n- a\n- b\n---\nbody").is_none());
    assert!(read_frontmatter("---\njust text\n---\nbody").is_none());
    assert!(read_frontmatter("---\nkey: [unclosed\n---\nbody").is_none());
    assert!(read_frontmatter("text\n---\ntitle: x\n---\n").is_none());
}

#[test]
fn card_shows_each_field() {
    let fields = vec![scalar("title", "Hello")];
    assert_eq!(
        render_frontmatter(&fields),
        "<div class=\"frontmatter-card\"><div class=\"frontmatter-header\">Metadata</div>\
<div class=\"frontmatter-content\"><div class=\"frontmatter-item\">\
<span class=\"frontmatter-key\">title</span><span class=\"frontmatter-value\">Hello</span>\
</div></div></div>"
    );
}

#[test]
fn card_of_no_fields_is_empty_but_present() {
    assert_eq!(
        render_frontmatter(&Vec::new()),
        "<div class=\"frontmatter-card\"><div class=\"frontmatter-header\">Metadata</div>\
<div class=\"frontmatter-content\"></div></div>"
    );
}

#[test]
fn card_hides_cssclass_and_status() {
    let fields = vec![scalar("cssclass", "wide"), scalar("title", "T"), scalar("status", "draft")];
    let html = render_frontmatter(&fields);
    assert!(!html.contains("cssclass"));
    assert!(!html.contains("status"));
    assert!(!html.contains("wide"));
    assert!(!html.contains("draft"));
    assert!(html.contains("<span class=\"frontmatter-key\">title</span>"));
}

#[test]
fn card_shows_lists_as_tags_without_wikilink_brackets() {
    let fields = vec![FrontmatterField {
        key: Some("tags".to_string()),
        value: FrontmatterValue::List(vec![
            Some("[[Rust]]".to_string()),
            None,
            Some("plain".to_string()),
        ]),
    }];
    let html = render_frontmatter(&fields);
    assert!(html.contains(
        "<span class=\"frontmatter-value\"><div class=\"frontmatter-tags\">\
<span class=\"frontmatter-tag\">Rust</span><span class=\"frontmatter-tag\"></span>\
<span class=\"frontmatter-tag\">plain</span></div></span>"
    ));
}

#[test]
fn card_shows_other_values_in_debug_form_and_unknown_keys() {
    let fields = vec![FrontmatterField {
        key: None,
        value: FrontmatterValue::Scalar { text: None, debug: "Number(7)".to_string() },
    }];
    let html = render_frontmatter(&fields);
    assert!(html.contains(
        "<span class=\"frontmatter-key\">unknown</span><span class=\"frontmatter-value\">Number(7)</span>"
    ));
}

#[test]
fn document_with_frontmatter_gets_card_and_body_without_the_block() {
    let html = parse_markdown_to_html(
        "---\ntitle: Hello\ntags:\n  - \"[[a]]\"\nstatus: draft\n---\n# Body\n".to_string(),
    );
    assert_eq!(
        html,
        "<div class=\"frontmatter-card\"><div class=\"frontmatter-header\">Metadata</div>\
<div class=\"frontmatter-content\"><div class=\"frontmatter-item\">\
<span class=\"frontmatter-key\">title</span><span class=\"frontmatter-value\">Hello</span></div>\
<div class=\"frontmatter-item\"><span class=\"frontmatter-key\">tags</span>\
<span class=\"frontmatter-value\"><div class=\"frontmatter-tags\">\
<span class=\"frontmatter-tag\">a</span></div></span></div></div></div><h1>Body</h1>\n"
    );
}

#[test]
fn frontmatter_that_cannot_be_read_stays_in_the_body() {
    let html = parse_markdown_to_html("---\n- a\n---\ntext\n".to_string());
    assert!(!html.contains("frontmatter-card"));
    assert!(html.contains("<li>a</li>"));
}
