use nwl_compiler::codegen::{generate_element, generate_react, CodegenError};
use nwl_compiler::model::{
    ButtonElement, Document, Element, FormElement, HeadingElement, InputElement, ListElement,
    ListItem, NavigationMenuElement, Page, PageData, PaginationElement, SliderElement,
    StateDefinition, StateValue, ValidationRule,
};
use nwl_compiler::CompilerError;

fn page_named(name: &str, children: Vec<Element>, state: Vec<StateDefinition>) -> Page {
    Page {
        page_data: PageData {
            name: name.to_string(),
            layout: None,
            style: vec![],
            children,
            state,
            css_theme: None,
            css_override: None,
        },
    }
}

#[test]
fn test_stateless_page_has_no_hook_import() {
    let page = page_named(
        "Plain",
        vec![Element::Heading(HeadingElement { content: "Hi".to_string(), style: vec![] })],
        vec![],
    );
    let code = generate_react(&page, &None, &None).unwrap();
    assert!(code.contains("import React from 'react';"));
    assert!(!code.contains("useState"));
    assert!(!code.contains("const ["));
}

#[test]
fn test_hamburger_menu_adds_implicit_hook_first() {
    let page = page_named(
        "Menu",
        vec![Element::NavigationMenu(NavigationMenuElement {
            items: vec![],
            mobileBreakpoint: None,
            hamburger: Some(true),
            style: vec![],
            mobileStyle: vec![],
        })],
        vec![StateDefinition {
            name: "query".to_string(),
            value_type: None,
            initial: Some(StateValue::Str("".to_string())),
        }],
    );
    let code = generate_react(&page, &None, &None).unwrap();
    let menu_pos = code.find("[menuOpen, setMenuOpen] = useState(false)").unwrap();
    let query_pos = code.find("[query, setQuery] = useState(\"\")").unwrap();
    assert!(menu_pos < query_pos);
}

#[test]
fn test_hamburger_menu_alone_imports_state_hook() {
    // The implicit menu hook counts: even with no declared state the
    // component uses a hook, so the state-hook import must be present.
    let page = page_named(
        "MenuOnly",
        vec![Element::NavigationMenu(NavigationMenuElement {
            items: vec![],
            mobileBreakpoint: None,
            hamburger: Some(true),
            style: vec![],
            mobileStyle: vec![],
        })],
        vec![],
    );
    let code = generate_react(&page, &None, &None).unwrap();
    assert!(code.contains("import React, { useState } from 'react';"));
    assert!(code.contains("const [menuOpen, setMenuOpen] = useState(false);"));
}

#[test]
fn test_count_state_hook_declaration() {
    let page = page_named(
        "Counter",
        vec![],
        vec![StateDefinition {
            name: "count".to_string(),
            value_type: None,
            initial: Some(StateValue::Num("0".to_string())),
        }],
    );
    let code = generate_react(&page, &None, &None).unwrap();
    assert!(code.contains("import React, { useState } from 'react';"));
    assert!(code.contains("const [count, setCount] = useState(0);"));
}

#[test]
fn test_home_page_round_trip() {
    let page = page_named(
        "Home",
        vec![
            Element::Heading(HeadingElement { content: "Hi".to_string(), style: vec![] }),
            Element::Button(ButtonElement {
                content: "Go".to_string(),
                onClick: Some("doThing()".to_string()),
                style: vec![],
            }),
        ],
        vec![],
    );
    let code = nwl_compiler::compile_page(&page).unwrap();
    assert!(code.contains("export default function Home()"));
    assert!(code.contains("Hi"));
    assert!(code.contains("Go"));
    assert!(code.contains("onClick={() => doThing()}"));
}

#[test]
fn test_bound_input_wires_accessor_and_mutator() {
    let page = page_named(
        "Signup",
        vec![Element::Input(InputElement {
            placeholder: None,
            value: None,
            bind: Some("email".to_string()),
            onChange: None,
            style: vec![],
        })],
        vec![StateDefinition {
            name: "email".to_string(),
            value_type: None,
            initial: Some(StateValue::Str("".to_string())),
        }],
    );
    let code = nwl_compiler::compile_page(&page).unwrap();
    assert!(code.contains("value={email}"));
    assert!(code.contains("onChange={(e) => setEmail(e.target.value)}"));
}

#[test]
fn test_form_validation_default_message() {
    let form = Element::Form(FormElement {
        onSubmit: Some("submitForm()".to_string()),
        validation: Some(vec![(
            "username".to_string(),
            vec![ValidationRule {
                required: Some(true),
                pattern: None,
                minLength: None,
                maxLength: None,
                message: None,
            }],
        )]),
        captcha: None,
        onValidationError: None,
        children: vec![],
        style: vec![],
    });
    let code = generate_element(&form, 1).unwrap();
    assert!(code.contains("e.preventDefault();"));
    assert!(code.contains("username is required"));
    assert!(code.contains("if (!username.trim())"));
    assert!(code.contains("_hasError = true"));
}

#[test]
fn test_form_validation_length_and_pattern_messages() {
    let form = Element::Form(FormElement {
        onSubmit: None,
        validation: Some(vec![(
            "nick_name".to_string(),
            vec![ValidationRule {
                required: None,
                pattern: Some("^a\\d+$".to_string()),
                minLength: Some(3),
                maxLength: Some(12),
                message: None,
            }],
        )]),
        captcha: None,
        onValidationError: Some("onBad()".to_string()),
        children: vec![],
        style: vec![],
    });
    let code = generate_element(&form, 0).unwrap();
    // The pattern is spliced with backslashes doubled for the quoted literal.
    assert!(code.contains("new RegExp('^a\\\\d+$')"));
    assert!(code.contains("Invalid format for nick_name"));
    assert!(code.contains("nickName.length < 3"));
    assert!(code.contains("nick_name must be at least 3 characters"));
    assert!(code.contains("nick_name must be no more than 12 characters"));
    assert!(code.contains("onBad();"));
}

#[test]
fn test_router_keeps_route_order() {
    let entries = vec![
        ("/".to_string(), "Home".to_string()),
        ("/about".to_string(), "About".to_string()),
    ];
    let (imports, routes) = nwl_compiler::codegen::build_route_tables(&entries);
    assert_eq!(
        imports,
        "import Home from './home';\nimport About from './about';\n"
    );
    assert_eq!(
        routes,
        "        <Route path=\"/\" element={<Home />} />\n\n        <Route path=\"/about\" element={<About />} />\n"
    );
    let router = nwl_compiler::codegen::generate_router("demo", &imports, &routes, &None, &None);
    let home = router.find("path=\"/\"").unwrap();
    let about = router.find("path=\"/about\"").unwrap();
    assert!(home < about);
    assert!(router.find("import Home").unwrap() < router.find("import About").unwrap());
    assert!(!router.contains("themes/processed.css"));
    let styled = nwl_compiler::codegen::generate_router(
        "demo",
        &imports,
        &routes,
        &Some("default".to_string()),
        &None,
    );
    assert!(styled.contains("import '../themes/processed.css';"));
}

#[test]
fn test_multi_page_document_is_unsupported() {
    let doc = Document {
        pages: vec![page_named("A", vec![], vec![]), page_named("B", vec![], vec![])],
    };
    let result = nwl_compiler::compile(&doc);
    assert_eq!(
        result.unwrap_err(),
        CompilerError::Codegen(CodegenError::UnsupportedElement)
    );
    let empty = Document { pages: vec![] };
    assert_eq!(
        nwl_compiler::compile(&empty).unwrap_err(),
        CompilerError::Codegen(CodegenError::UnsupportedElement)
    );
}

#[test]
fn test_error_messages() {
    assert_eq!(
        CompilerError::Codegen(CodegenError::UnsupportedElement).message(),
        "Codegen error: Unsupported element type"
    );
    assert_eq!(CompilerError::IO("gone".to_string()).message(), "IO error: gone");
    assert_eq!(
        CompilerError::Parse("bad".to_string()).message(),
        "YAML parse error: bad"
    );
}

#[test]
fn test_slider_numeric_attributes() {
    let slider = Element::Slider(SliderElement {
        bind: None,
        min: Some(-5),
        max: Some(90),
        step: Some(5),
        label: None,
        onChange: None,
        style: vec![],
    });
    let code = generate_element(&slider, 0).unwrap();
    assert_eq!(
        code,
        "<input type=\"range\" min=\"-5\" max=\"90\" step=\"5\" />"
    );
}

#[test]
fn test_pagination_page_count_rounds_up() {
    let p = Element::Pagination(PaginationElement {
        bind: Some("page".to_string()),
        total: Some(95),
        perPage: Some(10),
        onChange: None,
        style: vec![],
    });
    let code = generate_element(&p, 0).unwrap();
    assert!(code.contains("Page { page } of 10"));
    assert!(code.contains("page < 10 && setPage(page + 1)"));
}

#[test]
fn test_state_sequence_literal() {
    let page = page_named(
        "Tags",
        vec![],
        vec![StateDefinition {
            name: "tags".to_string(),
            value_type: None,
            initial: Some(StateValue::List(vec![
                StateValue::Str("a".to_string()),
                StateValue::Num("2".to_string()),
                StateValue::Bool(true),
                StateValue::Null,
            ])),
        }],
    );
    let code = nwl_compiler::compile_page(&page).unwrap();
    assert!(code.contains("[tags, setTags] = useState([\"a\", 2, true, null]);"));
}

#[test]
fn test_state_nested_sequence_literal() {
    let page = page_named(
        "Matrix",
        vec![],
        vec![StateDefinition {
            name: "grid".to_string(),
            value_type: None,
            initial: Some(StateValue::List(vec![
                StateValue::List(vec![
                    StateValue::Num("1".to_string()),
                    StateValue::Num("2".to_string()),
                ]),
                StateValue::List(vec![]),
            ])),
        }],
    );
    let code = nwl_compiler::compile_page(&page).unwrap();
    assert!(code.contains("[grid, setGrid] = useState([[1, 2], []]);"));
}

#[test]
fn test_element_indentation() {
    let heading = Element::Heading(HeadingElement {
        content: "Deep".to_string(),
        style: vec![],
    });
    let code = generate_element(&heading, 3).unwrap();
    assert_eq!(code, "      <h1>Deep</h1>");
}

#[test]
fn test_list_fixed_items_and_repeat_mode() {
    let fixed = Element::List(ListElement {
        items: vec![ListItem { content: "Item 1".to_string(), onClick: None }],
        data: None,
        style: vec![],
    });
    let code = generate_element(&fixed, 0).unwrap();
    assert!(code.contains("key=\"list-item-0\""));
    assert!(code.contains("Item 1"));

    let repeated = Element::List(ListElement {
        items: vec![],
        data: Some("rows".to_string()),
        style: vec![],
    });
    let code = generate_element(&repeated, 0).unwrap();
    assert!(code.contains(
        "{rows.map((item, index) => <div key={index} className=\"List-item\">{item}</div>)}"
    ));
}

#[test]
fn test_undeclared_bindings_are_reported() {
    let page = page_named(
        "Signup",
        vec![Element::Input(InputElement {
            placeholder: None,
            value: None,
            bind: Some("email".to_string()),
            onChange: None,
            style: vec![],
        })],
        vec![],
    );
    assert_eq!(
        nwl_compiler::bindings::undeclared_bindings(&page.page_data),
        vec!["email".to_string()]
    );

    let declared = page_named(
        "Signup",
        vec![Element::Input(InputElement {
            placeholder: None,
            value: None,
            bind: Some("email".to_string()),
            onChange: None,
            style: vec![],
        })],
        vec![StateDefinition {
            name: "email".to_string(),
            value_type: None,
            initial: Some(StateValue::Str("".to_string())),
        }],
    );
    assert!(nwl_compiler::bindings::undeclared_bindings(&declared.page_data).is_empty());
}
