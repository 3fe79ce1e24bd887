use nwl_compiler::codegen::{generate_router, ReactGenerator};
use nwl_compiler::model::{
    ButtonElement, Document, Element, HeadingElement, Layout, LayoutType, Page, PageData,
    StateDefinition, StateValue,
};

fn make_simple_page() -> Page {
    Page {
        page_data: PageData {
            name: "Test".to_string(),
            layout: None,
            style: vec![],
            children: vec![
                Element::Heading(HeadingElement {
                    content: "Hello World".to_string(),
                    style: vec!["text-2xl".to_string(), "font-bold".to_string()],
                }),
                Element::Button(ButtonElement {
                    content: "Click Me".to_string(),
                    onClick: Some("handleClick()".to_string()),
                    style: vec!["bg-blue-500".to_string(), "text-white".to_string()],
                }),
            ],
            state: vec![],
            css_theme: None,
            css_override: None,
        },
    }
}

#[test]
fn test_generate_simple_page() {
    let page = make_simple_page();
    let document = Document { pages: vec![page] };
    let result = nwl_compiler::compile(&document);
    assert!(result.is_ok());
    let code = result.unwrap();
    assert!(code.contains("export default function Test()"));
    assert!(code.contains("Hello World"));
    assert!(code.contains("Click Me"));
    assert!(code.contains("handleClick()"));
}

#[test]
fn test_generate_heading_component() {
    let page = Page {
        page_data: PageData {
            name: "HeadingTest".to_string(),
            layout: None,
            style: vec![],
            children: vec![Element::Heading(HeadingElement {
                content: "Test Heading".to_string(),
                style: vec!["text-xl".to_string(), "font-semibold".to_string()],
            })],
            state: vec![],
            css_theme: None,
            css_override: None,
        },
    };
    let document = Document { pages: vec![page] };
    let result = nwl_compiler::compile(&document).unwrap();
    assert!(result.contains("<h1"));
    assert!(result.contains("Test Heading"));
}

#[test]
fn test_generate_button_with_onclick() {
    let page = Page {
        page_data: PageData {
            name: "ButtonTest".to_string(),
            layout: None,
            style: vec![],
            children: vec![Element::Button(ButtonElement {
                content: "Submit".to_string(),
                onClick: Some("handleSubmit()".to_string()),
                style: vec!["bg-primary".to_string()],
            })],
            state: vec![],
            css_theme: None,
            css_override: None,
        },
    };
    let document = Document { pages: vec![page] };
    let result = nwl_compiler::compile(&document).unwrap();
    assert!(result.contains("onClick={() => handleSubmit()}"));
    assert!(result.contains("Submit"));
}

#[test]
fn test_generate_page_with_layout() {
    let page = Page {
        page_data: PageData {
            name: "LayoutTest".to_string(),
            layout: Some(Layout {
                layout_type: LayoutType::Column,
                columns: None,
                properties: vec!["items-center".to_string(), "gap-4".to_string()],
            }),
            style: vec!["bg-gray-100".to_string()],
            children: vec![Element::Heading(HeadingElement {
                content: "Title".to_string(),
                style: vec![],
            })],
            state: vec![],
            css_theme: None,
            css_override: None,
        },
    };
    let document = Document { pages: vec![page] };
    let result = nwl_compiler::compile(&document).unwrap();
    // The page layout wraps the children in a div carrying the page style
    // and the layout's derived classes.
    assert!(result.contains("className=\"bg-gray-100 flex flex-col items-center gap-4\""));
    assert!(result.contains("Title"));
}

#[test]
fn test_to_pascal_case() {
    assert_eq!(ReactGenerator::to_pascal_case("hello"), "Hello");
    assert_eq!(ReactGenerator::to_pascal_case("hello_world"), "HelloWorld");
    assert_eq!(ReactGenerator::to_pascal_case("hello-world"), "HelloWorld");
    assert_eq!(ReactGenerator::to_pascal_case("hello world"), "HelloWorld");
}

#[test]
fn test_to_camel_case() {
    // to_camel_case keeps the first character, capitalizing only after delimiters.
    assert_eq!(ReactGenerator::to_camel_case("hello"), "hello");
    assert_eq!(ReactGenerator::to_camel_case("hello_world"), "helloWorld");
    assert_eq!(ReactGenerator::to_camel_case("hello-world"), "helloWorld");
    assert_eq!(ReactGenerator::to_camel_case("hello world"), "helloWorld");
    assert_eq!(ReactGenerator::to_camel_case("Hello"), "Hello");
    assert_eq!(ReactGenerator::to_camel_case("HelloWorld"), "HelloWorld");
    assert_eq!(ReactGenerator::to_camel_case("HELLO"), "HELLO");
}

#[test]
fn test_generate_multiple_pages() {
    let page1 = Page {
        page_data: PageData {
            name: "Home".to_string(),
            layout: None,
            style: vec![],
            children: vec![Element::Heading(HeadingElement {
                content: "Welcome".to_string(),
                style: vec![],
            })],
            state: vec![],
            css_theme: None,
            css_override: None,
        },
    };
    let page2 = Page {
        page_data: PageData {
            name: "About".to_string(),
            layout: None,
            style: vec![],
            children: vec![Element::Heading(HeadingElement {
                content: "About Us".to_string(),
                style: vec![],
            })],
            state: vec![],
            css_theme: None,
            css_override: None,
        },
    };
    let out1 = nwl_compiler::compile_page(&page1).unwrap();
    let out2 = nwl_compiler::compile_page(&page2).unwrap();
    let result = format!("{}{}", out1, out2);
    assert!(result.contains("function Home()"));
    assert!(result.contains("function About()"));
    assert!(result.contains("Welcome"));
    assert!(result.contains("About Us"));
}

#[test]
fn test_generate_router() {
    let imports = "import Home from './home';\nimport About from './about';".to_string();
    let routes = "        <Route path=\"/\" element={<Home />}} />\n        <Route path=\"/about\" element={<About />}} />\n".to_string();
    let router = generate_router("TestApp", &imports, &routes, &None, &None);
    assert!(router.contains("import React from 'react'"));
    assert!(router.contains("BrowserRouter"));
    assert!(router.contains("Home"));
    assert!(router.contains("About"));
    assert!(router.contains("\"/\""));
    assert!(router.contains("\"/about\""));
}

#[test]
fn test_generate_page_with_state() {
    let page = Page {
        page_data: PageData {
            name: "Counter".to_string(),
            layout: None,
            style: vec![],
            children: vec![Element::Button(ButtonElement {
                content: "Count: 0".to_string(),
                style: vec![],
                onClick: None,
            })],
            state: vec![StateDefinition {
                name: "count".to_string(),
                value_type: None,
                initial: Some(StateValue::Num("0".to_string())),
            }],
            css_theme: None,
            css_override: None,
        },
    };
    let document = Document { pages: vec![page] };
    let result = nwl_compiler::compile(&document).unwrap();
    assert!(result.contains("useState"));
    assert!(result.contains("count"));
    assert!(result.contains("setCount"));
}

#[test]
fn test_format_layout_props() {
    let layout = Layout {
        layout_type: LayoutType::Column,
        columns: None,
        properties: vec!["items-center".to_string(), "gap-4".to_string()],
    };
    let result = ReactGenerator::format_layout_props(&layout);
    assert!(result.contains("flex flex-col"));
    assert!(result.contains("items-center"));
    assert!(result.contains("gap-4"));
}
