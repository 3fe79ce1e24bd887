//! Compiler core for a declarative UI language: a typed document tree of
//! pages and elements is lowered to React component source text, with
//! state-hook synthesis, binding wiring, style-precedence resolution and
//! router assembly.

pub mod bindings;
pub mod codegen;
pub mod css_processing;
pub mod emit;
pub mod laws;
pub mod model;
pub mod text;

use vstd::prelude::*;

use crate::codegen::{generate_react, CodegenError};
use crate::model::{Document, Page};

verus! {

/// A build failure: a missing or unreadable input, an input that does not
/// parse, or a code-generation failure.
#[derive(Debug, PartialEq, Eq)]
pub enum CompilerError {
    IO(String),
    Parse(String),
    Codegen(CodegenError),
}

impl CompilerError {
    /// The diagnostic text of this error.
    pub fn message(&self) -> (r: String)
        ensures
            match *self {
                CompilerError::IO(ref m) => r@ == "IO error: "@ + m@,
                CompilerError::Parse(ref m) => r@ == "YAML parse error: "@ + m@,
                CompilerError::Codegen(_) => r@ == "Codegen error: "@
                    + "Unsupported element type"@,
            },
    {
        match self {
            CompilerError::IO(m) => {
                let mut s = String::from_str("IO error: ");
                s.append(m.as_str());
                s
            },
            CompilerError::Parse(m) => {
                let mut s = String::from_str("YAML parse error: ");
                s.append(m.as_str());
                s
            },
            CompilerError::Codegen(e) => {
                let mut s = String::from_str("Codegen error: ");
                let m = e.message();
                s.append(m.as_str());
                s
            },
        }
    }
}

/// Compiles a parsed single-page document to its component source.
pub fn compile(document: &Document) -> (r: Result<String, CompilerError>)
    ensures
        document.pages@.len() == 1 ==> (r matches Ok(s) && s@ == crate::emit::component_text(
            document.pages@[0].page_data,
        )),
        document.pages@.len() != 1 ==> (r matches Err(e) && e == CompilerError::Codegen(
            CodegenError::UnsupportedElement,
        )),
{
    compile_with_css(document, &None, &None)
}

/// Compiles a parsed document to component source when it holds exactly
/// one page; any other page count is an unsupported input.
pub fn compile_with_css(
    document: &Document,
    css_theme: &Option<String>,
    css_override: &Option<String>,
) -> (r: Result<String, CompilerError>)
    ensures
        document.pages@.len() == 1 ==> (r matches Ok(s) && s@ == crate::emit::component_text(
            document.pages@[0].page_data,
        )),
        document.pages@.len() != 1 ==> (r matches Err(e) && e == CompilerError::Codegen(
            CodegenError::UnsupportedElement,
        )),
{
    if document.pages.len() == 1 {
        match generate_react(&document.pages[0], css_theme, css_override) {
            Ok(s) => Ok(s),
            Err(e) => {
                proof {
                    assert(false);
                }
                Err(CompilerError::Codegen(e))
            },
        }
    } else {
        Err(CompilerError::Codegen(CodegenError::UnsupportedElement))
    }
}

/// Compiles one parsed page to its component source.
pub fn compile_page(page: &Page) -> (r: Result<String, CompilerError>)
    ensures
        r matches Ok(s) && s@ == crate::emit::component_text(page.page_data),
{
    compile_page_with_css(page, &None, &None)
}

pub fn compile_page_with_css(
    page: &Page,
    css_theme: &Option<String>,
    css_override: &Option<String>,
) -> (r: Result<String, CompilerError>)
    ensures
        r matches Ok(s) && s@ == crate::emit::component_text(page.page_data),
{
    match generate_react(page, css_theme, css_override) {
        Ok(s) => Ok(s),
        Err(e) => {
            proof {
                assert(false);
            }
            Err(CompilerError::Codegen(e))
        },
    }
}

} // verus!
