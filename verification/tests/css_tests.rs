use nwl_compiler::css_processing::{
    apply_inline_styles, format_selector_key, generate_css_output, merge_css_rules, parse_css,
    process_css, resolve_utility_class,
};
use nwl_compiler::codegen::{generate_css, get_css_import_path};
use nwl_compiler::model::{
    ButtonElement, ContainerElement, Document, Element, HeadingElement, Page, PageData,
};

fn color_of<'a>(
    rules: &'a [nwl_compiler::css_processing::CssRule],
    selector: &str,
) -> Option<&'a str> {
    for r in rules {
        if r.selector == selector {
            for (k, v) in &r.properties {
                if k == "color" {
                    return Some(v);
                }
            }
        }
    }
    None
}

#[test]
fn test_parse_css_blocks() {
    let text = "p {\n  color: red;\n  margin: 0;\n}\n\nh1:hover {\n  color: blue;\n}\n";
    let rules = parse_css(text).unwrap();
    assert_eq!(rules.len(), 2);
    assert_eq!(rules[0].selector, "p");
    assert_eq!(rules[0].properties.len(), 2);
    assert_eq!(rules[0].properties[0], ("color".to_string(), "red".to_string()));
    assert!(!rules[0].is_pseudo);
    assert_eq!(rules[1].selector, "h1:hover");
    assert!(rules[1].is_pseudo);
}

#[test]
fn test_parse_css_skips_comments_and_junk() {
    let text = "/* a comment */\np {\n  color: red;\n  not a property line\n}\n";
    let rules = parse_css(text).unwrap();
    assert_eq!(rules.len(), 1);
    assert_eq!(rules[0].properties.len(), 1);
}

#[test]
fn test_style_precedence_is_layered() {
    let base = "p {\n  color: red;\n}\n";
    let override_css = "p {\n  color: blue;\n}\n";
    let inline = vec![("p".to_string(), vec!["text-green-400".to_string()])];
    let no_inline: Vec<(String, Vec<String>)> = vec![];

    // All three layers: the inline utility class wins.
    let full = process_css(Some(base), Some(override_css), &inline).unwrap();
    assert_eq!(color_of(&full.rules, "p"), Some("#4ade80"));

    // Without the inline layer the override file wins.
    let two = process_css(Some(base), Some(override_css), &no_inline).unwrap();
    assert_eq!(color_of(&two.rules, "p"), Some("blue"));

    // The base theme alone keeps its own value.
    let one = process_css(Some(base), None, &no_inline).unwrap();
    assert_eq!(color_of(&one.rules, "p"), Some("red"));
}

#[test]
fn test_merge_adds_new_rules_and_properties() {
    let base = parse_css("p {\n  color: red;\n}\n").unwrap();
    let merged = merge_css_rules(base, "p {\n  margin: 1rem;\n}\n\nh2 {\n  color: teal;\n}\n");
    assert_eq!(merged.len(), 2);
    assert_eq!(merged[0].selector, "p");
    assert_eq!(merged[0].properties.len(), 2);
    assert_eq!(merged[0].properties[1], ("margin".to_string(), "1rem".to_string()));
    assert_eq!(merged[1].selector, "h2");
}

#[test]
fn test_format_selector_key_strips_pseudo() {
    assert_eq!(format_selector_key("p:hover"), "p");
    assert_eq!(format_selector_key("  .Button  "), ".Button");
    assert_eq!(format_selector_key(".Card"), ".Card");
}

#[test]
fn test_resolve_utility_class_table() {
    assert_eq!(
        resolve_utility_class("text-xl"),
        ("font-size".to_string(), "1.25rem".to_string())
    );
    assert_eq!(
        resolve_utility_class("bg-gray-100"),
        ("background-color".to_string(), "#f3f4f6".to_string())
    );
    assert_eq!(resolve_utility_class("no-such-class"), (String::new(), String::new()));
}

#[test]
fn test_unknown_inline_classes_are_dropped() {
    let mut rules = parse_css("p {\n  color: red;\n}\n").unwrap();
    let inline = vec![("p".to_string(), vec!["mystery-token".to_string()])];
    apply_inline_styles(&mut rules, &inline);
    assert_eq!(rules[0].properties.len(), 1);
    assert_eq!(rules[0].properties[0], ("color".to_string(), "red".to_string()));
}

#[test]
fn test_generate_css_output_format() {
    let rules = parse_css("p {\n  color: red;\n}\n").unwrap();
    let out = generate_css_output(&rules);
    assert!(out.starts_with("/* Processed CSS - Generated by NWL Compiler */\n"));
    assert!(out.contains("/* Precedence: Base Theme < Override Theme < YAML Inline Styles */"));
    assert!(out.contains("p {\n  color: red;\n}\n\n"));
}

fn styled_page(theme: Option<&str>, override_file: Option<&str>) -> Page {
    Page {
        page_data: PageData {
            name: "Styled".to_string(),
            layout: None,
            style: vec![],
            children: vec![Element::Container(ContainerElement {
                children: vec![Element::Button(ButtonElement {
                    content: "Go".to_string(),
                    onClick: None,
                    style: vec!["bg-blue-500".to_string()],
                })],
                style: vec!["p-4".to_string()],
            })],
            state: vec![],
            css_theme: theme.map(|s| s.to_string()),
            css_override: override_file.map(|s| s.to_string()),
        },
    }
}

#[test]
fn test_collect_inline_styles_walks_containers() {
    let doc = Document { pages: vec![styled_page(None, None)] };
    let styles = nwl_compiler::css_processing::collect_inline_styles(&doc);
    assert_eq!(styles.len(), 2);
    assert_eq!(styles[0].0, "Container");
    assert_eq!(styles[0].1, vec!["p-4".to_string()]);
    assert_eq!(styles[1].0, "Button");
    assert_eq!(styles[1].1, vec!["bg-blue-500".to_string()]);
}

#[test]
fn test_generate_css_bundle() {
    let doc = Document { pages: vec![styled_page(Some("default"), None)] };
    let out = generate_css(&doc).unwrap();
    assert!(out.contains("/* Default Base UI Theme */"));
    assert!(out.contains("\n===OVERRIDE_FILE===\n"));
    assert!(out.contains("/* Theme Overrides */"));

    let custom = Document { pages: vec![styled_page(Some("dark"), Some("extra.css"))] };
    let out2 = generate_css(&custom).unwrap();
    assert!(out2.contains("/* Custom theme: dark */"));
    assert!(out2.contains("@import './themes/dark.css';"));
    assert!(out2.contains("/* Override styles: extra.css */"));
    assert!(out2.contains("@import './themes/extra.css';"));
}

#[test]
fn test_get_css_import_path() {
    let plain = Document { pages: vec![styled_page(None, None)] };
    let (a, b) = get_css_import_path(&plain, &None, &None);
    assert_eq!(a, "");
    assert_eq!(b, "");

    let (c, d) = get_css_import_path(&plain, &Some("default".to_string()), &None);
    assert_eq!(c, "./themes/theme.css");
    assert_eq!(d, "./themes/theme.override.css");

    let page_level = Document { pages: vec![styled_page(Some("dark"), None)] };
    let (e, f) = get_css_import_path(&page_level, &None, &None);
    assert_eq!(e, "./themes/theme.css");
    assert_eq!(f, "./themes/theme.override.css");
}

#[test]
fn test_process_css_default_theme() {
    let styles: Vec<(String, Vec<String>)> = vec![];
    let processed = process_css(None, None, &styles).unwrap();
    assert!(processed.rules.iter().any(|r| r.selector == ".Button"));
    assert!(processed.import_statements.is_empty());
}

#[test]
fn test_heading_with_element_styles() {
    let heading = Element::Heading(HeadingElement {
        content: "Test Heading".to_string(),
        style: vec!["text-xl".to_string(), "font-semibold".to_string()],
    });
    let code = nwl_compiler::codegen::generate_element(&heading, 0).unwrap();
    assert_eq!(code, "<h1 className=\"text-xl font-semibold\">Test Heading</h1>");
}

#[test]
fn test_inline_selector_creates_missing_rule() {
    // A selector in the inline map with no parsed rule gets a rule created
    // carrying its resolved properties.
    let mut rules = parse_css("h1 {\n  color: red;\n}\n").unwrap();
    let inline = vec![("p".to_string(), vec!["text-xl".to_string()])];
    apply_inline_styles(&mut rules, &inline);
    assert_eq!(rules.len(), 2);
    assert_eq!(rules[1].selector, "p");
    assert_eq!(
        rules[1].properties,
        vec![("font-size".to_string(), "1.25rem".to_string())]
    );
    assert!(!rules[1].is_pseudo);

    // A selector whose classes all drop creates nothing.
    let mut rules = parse_css("h1 {\n  color: red;\n}\n").unwrap();
    let inline = vec![("p".to_string(), vec!["mystery-token".to_string()])];
    apply_inline_styles(&mut rules, &inline);
    assert_eq!(rules.len(), 1);

    // End to end: the resolver creates the rule too.
    let styles = vec![("p".to_string(), vec!["text-xl".to_string()])];
    let processed = process_css(Some("h1 {\n  color: red;\n}\n"), None, &styles).unwrap();
    assert!(processed
        .rules
        .iter()
        .any(|r| r.selector == "p"
            && r.properties == vec![("font-size".to_string(), "1.25rem".to_string())]));
}
