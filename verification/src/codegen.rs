//! The element and page code generator: a pure lowering from the document
//! model to React component source text. Every generator's output is pinned
//! exactly by the spec-level text functions in `emit`.

use vstd::prelude::*;

use crate::emit::{
    camel_case, case_shift, indent_text, pascal_case, style_text, MAX_INDENT,
};
use crate::model::{
    AccordionElement, AccordionItem, AlertElement, AvatarElement, BreadcrumbElement,
    BreadcrumbItem, CaptchaConfig, CaptchaProvider, ChipInputElement, Layout, ListElement,
    ListItem, NavElement, NavLink, NavigationMenuElement, TooltipElement, PopoverElement,
    UrlElement, EmailElement, BadgeElement, ButtonElement, CheckboxElement,
    ColorPickerElement, CopyButtonElement, CounterElement, DateInputElement, DateTimeInputElement,
    FieldElement, FileUploadElement, FormElement, HeadingElement, ImageElement, InputElement,
    PaginationElement, ProgressElement, RadioGroupElement, RadioOption, SearchInputElement,
    SelectElement, SelectOption, SliderElement, SpacerElement, SpinnerElement, TabItem,
    TabsElement, TagElement, TextElement, TextareaElement, TimeInputElement, ToggleElement,
};
use crate::model::{
    CardElement, CompileError, ContainerElement, DialogElement, Document, Element,
    FieldsetElement, LayoutElement, LayoutType, Page, PageData, StateDefinition, StateValue,
    ValidationRule,
};
use crate::text::{escape_backslashes_string, i32_string, push_char, str_eq, to_upper, u32_string, u64_string};

verus! {

#[derive(Debug, Clone, PartialEq, Eq)]
pub enum CodegenError {
    UnsupportedElement,
}

impl CodegenError {
    /// The diagnostic text of this error.
    pub fn message(&self) -> (r: String)
        ensures
            r@ == "Unsupported element type"@,
    {
        String::from_str("Unsupported element type")
    }
}

pub struct ReactGenerator;

impl ReactGenerator {
    /// Splits on `_`, `-` and space; capitalizes the first letter of each
    /// segment; concatenates with no separator.
    pub fn to_pascal_case(s: &str) -> (r: String)
        ensures
            r@ == pascal_case(s@),
    {
        case_shift_exec(s, true)
    }

    /// Same boundary rule as `to_pascal_case`, but the very first character
    /// is left as it is.
    pub fn to_camel_case(s: &str) -> (r: String)
        ensures
            r@ == camel_case(s@),
    {
        case_shift_exec(s, false)
    }

    /// Joins the utility class tokens with single spaces.
    pub fn format_style(styles: &Vec<String>) -> (r: String)
        ensures
            r@ == style_text(styles.deep_view()),
    {
        let mut out = String::new();
        let mut i: usize = 0;
        while i < styles.len()
            invariant
                i <= styles.len(),
                out@ == style_text(styles.deep_view().take(i as int)),
            decreases styles.len() - i,
        {
            if i > 0 {
                out.append(" ");
            }
            out.append(styles[i].as_str());
            proof {
                let sv = styles.deep_view();
                assert(sv.take(i + 1).drop_last() =~= sv.take(i as int));
                assert(sv.take(i + 1).last() == sv[i as int]);
            }
            i = i + 1;
        }
        proof {
            assert(styles.deep_view().take(styles.len() as int) =~= styles.deep_view());
        }
        out
    }
}

fn case_shift_exec(s: &str, capitalize: bool) -> (r: String)
    ensures
        r@ == case_shift(s@, capitalize),
{
    let n = s.unicode_len();
    let mut out = String::new();
    let mut cap = capitalize;
    let mut i: usize = 0;
    proof {
        assert(s@.skip(0) =~= s@);
        assert(Seq::<char>::empty() + case_shift(s@, capitalize) =~= case_shift(s@, capitalize));
    }
    while i < n
        invariant
            n == s@.len(),
            i <= n,
            case_shift(s@, capitalize) == out@ + case_shift(s@.skip(i as int), cap),
        decreases n - i,
    {
        let c = s.get_char(i);
        proof {
            assert(s@.skip(i as int).drop_first() =~= s@.skip(i + 1));
            assert(s@.skip(i as int)[0] == s@[i as int]);
        }
        if c == '_' || c == '-' || c == ' ' {
            cap = true;
        } else if cap {
            push_char(&mut out, to_upper(c));
            cap = false;
        } else {
            push_char(&mut out, c);
            cap = false;
        }
        i = i + 1;
    }
    proof {
        assert(s@.skip(n as int) =~= Seq::<char>::empty());
    }
    out
}

/// The two-space indentation prefix for the given nesting level.
pub fn indent_string(indent: usize) -> (r: String)
    ensures
        r@ == indent_text(indent as nat),
{
    let mut out = String::new();
    let mut i: usize = 0;
    while i < indent
        invariant
            i <= indent,
            out@ == indent_text(i as nat),
        decreases indent - i,
    {
        out.append("  ");
        i = i + 1;
    }
    out
}

/// The indentation level `k` steps deeper, saturating at `MAX_INDENT`.
pub fn deeper(indent: usize, k: usize) -> (r: usize)
    ensures
        r as nat == crate::emit::bump_indent(indent as nat, k as nat),
{
    if k <= MAX_INDENT && indent <= MAX_INDENT - k {
        indent + k
    } else {
        indent
    }
}

/// Appends ` className="..."` when the class string is non-empty.
fn append_class_attr(out: &mut String, cls: &String)
    ensures
        final(out)@ == old(out)@ + crate::emit::class_attr(cls@),
{
    if !cls.as_str().is_empty() {
        out.append(" className=\"");
        out.append(cls.as_str());
        out.append("\"");
    }
}

/// Appends ` className="Base"` or ` className="Base ..."`.
fn append_based_class(out: &mut String, base: &str, cls: &String)
    ensures
        final(out)@ == old(out)@ + crate::emit::based_class_attr(base@, cls@),
{
    out.append(" className=\"");
    out.append(base);
    if !cls.as_str().is_empty() {
        out.append(" ");
        out.append(cls.as_str());
    }
    out.append("\"");
}

/// Appends `pre` + the value + `"` when the optional value is present.
fn append_opt_quoted(out: &mut String, pre: &str, v: &Option<String>)
    ensures
        final(out)@ == old(out)@ + crate::emit::opt_quoted_attr(pre@, crate::emit::opt_view(*v)),
{
    if let Some(s) = v {
        out.append(pre);
        out.append(s.as_str());
        out.append("\"");
    }
}

/// Appends the mutator identifier `set` + PascalCase of the binding name.
fn append_setter(out: &mut String, bind: &str)
    ensures
        final(out)@ == old(out)@ + crate::emit::setter_name(bind@),
{
    out.append("set");
    let p = ReactGenerator::to_pascal_case(bind);
    out.append(p.as_str());
}

/// Appends the value/onChange pair of a bound text-valued control.
fn append_bind_string_attrs(out: &mut String, bind: &str)
    ensures
        final(out)@ == old(out)@ + crate::emit::bind_string_attrs(bind@),
{
    out.append(" value={");
    let c = ReactGenerator::to_camel_case(bind);
    out.append(c.as_str());
    out.append("}");
    out.append(" onChange={(e) => ");
    append_setter(out, bind);
    out.append("(e.target.value)}");
}

/// Appends `pre` + `mid` + `post`.
fn append_wrapped(out: &mut String, pre: &str, mid: &str, post: &str)
    ensures
        final(out)@ == old(out)@ + pre@ + mid@ + post@,
{
    out.append(pre);
    out.append(mid);
    out.append(post);
}

/// Appends `pre` + value + `post` when the optional text is present.
fn append_opt_wrapped(out: &mut String, pre: &str, v: &Option<String>, post: &str)
    ensures
        final(out)@ == old(out)@ + match *v {
            Some(s) => pre@ + s@ + post@,
            None => Seq::<char>::empty(),
        },
{
    if let Some(s) = v {
        out.append(pre);
        out.append(s.as_str());
        out.append(post);
    }
}

/// Appends `pre` + the decimal rendering + `post` when the number is present.
fn append_opt_i32(out: &mut String, pre: &str, v: Option<i32>, post: &str)
    ensures
        final(out)@ == old(out)@ + match v {
            Some(n) => pre@ + crate::text::int_text(n as int) + post@,
            None => Seq::<char>::empty(),
        },
{
    if let Some(n) = v {
        out.append(pre);
        let d = i32_string(n);
        out.append(d.as_str());
        out.append(post);
    }
}

/// Appends `pre` + the decimal rendering + `post` when the number is present.
fn append_opt_u32(out: &mut String, pre: &str, v: Option<u32>, post: &str)
    ensures
        final(out)@ == old(out)@ + match v {
            Some(n) => pre@ + crate::text::dec_text(n as nat) + post@,
            None => Seq::<char>::empty(),
        },
{
    if let Some(n) = v {
        out.append(pre);
        let d = u32_string(n);
        out.append(d.as_str());
        out.append(post);
    }
}

/// Appends `pre` + the camelCase accessor of the binding + `post` when a
/// binding is present.
fn append_opt_camel(out: &mut String, pre: &str, bind: &Option<String>, post: &str)
    ensures
        final(out)@ == old(out)@ + match *bind {
            Some(b) => pre@ + camel_case(b@) + post@,
            None => Seq::<char>::empty(),
        },
{
    if let Some(b) = bind {
        out.append(pre);
        let c = ReactGenerator::to_camel_case(b.as_str());
        out.append(c.as_str());
        out.append(post);
    }
}

/// Appends `pre` + the mutator identifier + `post` when a binding is
/// present.
fn append_opt_setter(out: &mut String, pre: &str, bind: &Option<String>, post: &str)
    ensures
        final(out)@ == old(out)@ + match *bind {
            Some(b) => pre@ + crate::emit::setter_name(b@) + post@,
            None => Seq::<char>::empty(),
        },
{
    if let Some(b) = bind {
        out.append(pre);
        append_setter(out, b.as_str());
        out.append(post);
    }
}

/// Appends ` onChange={(e) => ...}` when a handler is declared.
fn append_opt_onchange(out: &mut String, h: &Option<String>)
    ensures
        final(out)@ == old(out)@ + match *h {
            Some(s) => " onChange={(e) => "@ + s@ + "}"@,
            None => Seq::<char>::empty(),
        },
{
    if let Some(s) = h {
        out.append(" onChange={(e) => ");
        out.append(s.as_str());
        out.append("}");
    }
}

#[verifier::rlimit(100)]
#[verifier::spinoff_prover]
fn generate_heading(heading: &HeadingElement, indent: usize) -> (r: String)
    ensures
        r@ == crate::emit::heading_text(*heading, indent as nat),
{
    let mut out = indent_string(indent);
    let class_name = ReactGenerator::format_style(&heading.style);
    if class_name.as_str().is_empty() {
        out.append("<h1>");
        out.append(heading.content.as_str());
        out.append("</h1>");
    } else {
        out.append("<h1 className=\"");
        out.append(class_name.as_str());
        out.append("\">");
        out.append(heading.content.as_str());
        out.append("</h1>");
    }
    out
}

#[verifier::rlimit(100)]
#[verifier::spinoff_prover]
fn generate_text(text: &TextElement, indent: usize) -> (r: String)
    ensures
        r@ == crate::emit::text_text(*text, indent as nat),
{
    let mut out = indent_string(indent);
    let class_name = ReactGenerator::format_style(&text.style);
    if class_name.as_str().is_empty() {
        out.append("<p>");
        out.append(text.content.as_str());
        out.append("</p>");
    } else {
        out.append("<p className=\"");
        out.append(class_name.as_str());
        out.append("\">");
        out.append(text.content.as_str());
        out.append("</p>");
    }
    out
}

#[verifier::rlimit(100)]
#[verifier::spinoff_prover]
fn generate_button(button: &ButtonElement, indent: usize) -> (r: String)
    ensures
        r@ == crate::emit::button_text(*button, indent as nat),
{
    let mut out = indent_string(indent);
    let class_name = ReactGenerator::format_style(&button.style);
    out.append("<Button");
    append_based_class(&mut out, "Button", &class_name);
    if let Some(on_click) = &button.onClick {
        let starts_with_slash = on_click.as_str().unicode_len() > 0 && on_click.as_str().get_char(0)
            == '/';
        if starts_with_slash {
            out.append(" onClick={() => window.location.href = \"");
            out.append(on_click.as_str());
            out.append("\"}");
        } else {
            out.append(" onClick={() => ");
            out.append(on_click.as_str());
            out.append("}");
        }
    }
    out.append(">");
    out.append(button.content.as_str());
    out.append("</Button>");
    out
}

#[verifier::rlimit(100)]
#[verifier::spinoff_prover]
fn generate_spacer(spacer: &SpacerElement, indent: usize) -> (r: String)
    ensures
        r@ == crate::emit::spacer_text(*spacer, indent as nat),
{
    let mut out = indent_string(indent);
    out.append("<Separator />");
    out
}

#[verifier::rlimit(100)]
#[verifier::spinoff_prover]
fn generate_image(image: &ImageElement, indent: usize) -> (r: String)
    ensures
        r@ == crate::emit::image_text(*image, indent as nat),
{
    let mut out = indent_string(indent);
    let class_name = ReactGenerator::format_style(&image.style);
    out.append("<img");
    append_class_attr(&mut out, &class_name);
    append_opt_quoted(&mut out, " src=\"", &image.src);
    append_opt_quoted(&mut out, " alt=\"", &image.alt);
    out.append(" />");
    out
}

#[verifier::rlimit(100)]
#[verifier::spinoff_prover]
fn generate_input(input: &InputElement, indent: usize) -> (r: String)
    ensures
        r@ == crate::emit::input_text(*input, indent as nat),
{
    let mut out = indent_string(indent);
    let class_name = ReactGenerator::format_style(&input.style);
    out.append("<input");
    append_class_attr(&mut out, &class_name);
    append_opt_quoted(&mut out, " placeholder=\"", &input.placeholder);
    if let Some(bind) = &input.bind {
        append_bind_string_attrs(&mut out, bind.as_str());
    } else if let Some(value) = &input.value {
        out.append(" value=\"");
        out.append(value.as_str());
        out.append("\"");
    }
    append_opt_onchange(&mut out, &input.onChange);
    out.append(" />");
    out
}

#[verifier::rlimit(100)]
#[verifier::spinoff_prover]
fn generate_badge(badge: &BadgeElement, indent: usize) -> (r: String)
    ensures
        r@ == crate::emit::badge_text(*badge, indent as nat),
{
    let mut out = indent_string(indent);
    let class_name = ReactGenerator::format_style(&badge.style);
    out.append("<span");
    append_based_class(&mut out, "Badge", &class_name);
    if let Some(v) = &badge.variant {
        if str_eq(v.as_str(), "success") {
            out.append(" Badge-success");
        } else if str_eq(v.as_str(), "warning") {
            out.append(" Badge-warning");
        } else if str_eq(v.as_str(), "error") {
            out.append(" Badge-error");
        } else if str_eq(v.as_str(), "info") {
            out.append(" Badge-info");
        } else {
            out.append(" Badge-default");
        }
    } else {
        out.append(" Badge-default");
    }
    out.append(">");
    out.append(badge.content.as_str());
    out.append("</span>");
    out
}

#[verifier::rlimit(100)]
#[verifier::spinoff_prover]
fn generate_tag(tag: &TagElement, indent: usize) -> (r: String)
    ensures
        r@ == crate::emit::tag_text(*tag, indent as nat),
{
    let mut out = indent_string(indent);
    let class_name = ReactGenerator::format_style(&tag.style);
    out.append("<span ");
    if class_name.as_str().is_empty() {
        out.append("className=\"Tag\"");
    } else {
        out.append("className=\"Tag ");
        out.append(class_name.as_str());
        out.append("\"");
    }
    out.append(">");
    out.append(tag.content.as_str());
    out.append(" ");
    if tag.removable == Some(true) {
        out.append("<button className=\"Tag-close\" ");
        if let Some(h) = &tag.onRemove {
            out.append("onClick={() => ");
            out.append(h.as_str());
            out.append("}");
        }
        out.append("></button>");
    }
    out.append("</span>");
    out
}

#[verifier::rlimit(100)]
#[verifier::spinoff_prover]
fn generate_alert(alert: &AlertElement, indent: usize) -> (r: String)
    ensures
        r@ == crate::emit::alert_text(*alert, indent as nat),
{
    let mut out = indent_string(indent);
    let class_name = ReactGenerator::format_style(&alert.style);
    out.append("<div className=\"");
    out.append("Alert");
    if let Some(v) = &alert.alertType {
        if str_eq(v.as_str(), "success") {
            out.append(" Alert-success");
        } else if str_eq(v.as_str(), "warning") {
            out.append(" Alert-warning");
        } else if str_eq(v.as_str(), "error") {
            out.append(" Alert-error");
        } else {
            out.append(" Alert-info");
        }
    } else {
        out.append(" Alert-info");
    }
    if !class_name.as_str().is_empty() {
        out.append(" ");
        out.append(class_name.as_str());
    }
    out.append("\">");
    if alert.dismissible == Some(true) {
        out.append("<button className=\"Alert-dismiss\" ");
        if let Some(h) = &alert.onDismiss {
            out.append("onClick={() => ");
            out.append(h.as_str());
            out.append("}");
        }
        out.append(" />");
    }
    out.append("<p>");
    out.append(alert.content.as_str());
    out.append("</p></div>");
    out
}

#[verifier::rlimit(100)]
#[verifier::spinoff_prover]
fn generate_spinner(spinner: &SpinnerElement, indent: usize) -> (r: String)
    ensures
        r@ == crate::emit::spinner_text(*spinner, indent as nat),
{
    let mut out = indent_string(indent);
    let class_name = ReactGenerator::format_style(&spinner.style);
    out.append("<div className=\"");
    if class_name.as_str().is_empty() {
        out.append("Spinner");
    } else {
        out.append("Spinner ");
        out.append(class_name.as_str());
    }
    out.append("\">");
    let has_label = spinner.label.is_some();
    if let Some(l) = &spinner.label {
        out.append("<span className=\"Spinner-label\">");
        out.append(l.as_str());
        out.append("</span>");
    }
    out.append("<div className=\"Spinner-spinner");
    if let Some(s) = &spinner.size {
        if str_eq(s.as_str(), "sm") {
            out.append(" Spinner-sm");
        } else if str_eq(s.as_str(), "lg") {
            out.append(" Spinner-lg");
        }
    }
    out.append("\" />");
    if !has_label {
        out.append("<span className=\"sr-only\">Loading...</span>");
    }
    out.append("</div>");
    out
}

#[verifier::rlimit(100)]
#[verifier::spinoff_prover]
fn generate_field(field: &FieldElement, indent: usize) -> (r: String)
    ensures
        r@ == crate::emit::field_text(*field, indent as nat),
{
    let indent_str = indent_string(indent);
    let class_name = ReactGenerator::format_style(&field.style);
    let mut out = indent_str.clone();
    out.append("<Field.Root name=\"");
    out.append(field.name.as_str());
    out.append("\"");
    append_based_class(&mut out, "Field-root", &class_name);
    out.append(">\n");
    if let Some(l) = &field.label {
        out.append(indent_str.as_str());
        out.append("  <Field.Label className=\"Field-label\">");
        out.append(l.as_str());
        out.append("</Field.Label>\n");
    }
    out.append(indent_str.as_str());
    out.append("  <Field.Control");
    if let Some(p) = &field.placeholder {
        out.append(" placeholder=\"");
        out.append(p.as_str());
        out.append("\"");
    }
    out.append(" className=\"Field-control\" />\n");
    out.append(indent_str.as_str());
    out.append("  <Field.Error className=\"Field-error\" />\n");
    out.append(indent_str.as_str());
    out.append("</Field.Root>\n");
    out
}

#[verifier::rlimit(100)]
#[verifier::spinoff_prover]
fn generate_textarea(textarea: &TextareaElement, indent: usize) -> (r: String)
    ensures
        r@ == crate::emit::textarea_text(*textarea, indent as nat),
{
    let mut out = indent_string(indent);
    let class_name = ReactGenerator::format_style(&textarea.style);
    out.append("<textarea");
    append_class_attr(&mut out, &class_name);
    append_opt_quoted(&mut out, " placeholder=\"", &textarea.placeholder);
    if let Some(n) = textarea.rows {
        out.append(" rows={");
        let d = u32_string(n);
        out.append(d.as_str());
        out.append("}");
    }
    if let Some(bind) = &textarea.bind {
        append_bind_string_attrs(&mut out, bind.as_str());
    }
    append_opt_onchange(&mut out, &textarea.onChange);
    out.append(" />");
    out
}

#[verifier::rlimit(100)]
#[verifier::spinoff_prover]
fn generate_checkbox(checkbox: &CheckboxElement, indent: usize) -> (r: String)
    ensures
        r@ == crate::emit::checkbox_text(*checkbox, indent as nat),
{
    let indent_str = indent_string(indent);
    let class_name = ReactGenerator::format_style(&checkbox.style);
    let mut out = indent_str.clone();
    out.append("<label className=\"flex items-center gap-2 cursor-pointer");
    if !class_name.as_str().is_empty() {
        out.append(" ");
        out.append(class_name.as_str());
    }
    out.append("\">");
    out.append(indent_str.as_str());
    out.append("<Checkbox.Root className=\"Checkbox-root\"");
    append_opt_camel(&mut out, " checked={", &checkbox.bind, "}");
    out.append(" ");
    append_opt_setter(&mut out, " onCheckedChange={(checked) => ", &checkbox.bind, "(checked)}");
    out.append(">");
    out.append(indent_str.as_str());
    out.append("  <Checkbox.Indicator className=\"Checkbox-indicator\" />");
    out.append(indent_str.as_str());
    out.append("</Checkbox.Root>");
    if let Some(l) = &checkbox.label {
        out.append("<span>");
        out.append(l.as_str());
        out.append("</span>");
    }
    out.append("</label>");
    out
}

#[verifier::rlimit(100)]
#[verifier::spinoff_prover]
fn generate_slider(slider: &SliderElement, indent: usize) -> (r: String)
    ensures
        r@ == crate::emit::slider_text(*slider, indent as nat),
{
    let indent_str = indent_string(indent);
    let class_name = ReactGenerator::format_style(&slider.style);
    let mut props = String::new();
    props.append(" type=\"range\"");
    append_class_attr(&mut props, &class_name);
    append_opt_i32(&mut props, " min=\"", slider.min, "\"");
    append_opt_i32(&mut props, " max=\"", slider.max, "\"");
    append_opt_i32(&mut props, " step=\"", slider.step, "\"");
    append_opt_camel(&mut props, " value={", &slider.bind, "}");
    append_opt_setter(&mut props, " onChange={(e) => ", &slider.bind, "(Number(e.target.value))}");
    append_opt_onchange(&mut props, &slider.onChange);
    let mut out = indent_str;
    if let Some(l) = &slider.label {
        out.append("<label className=\"flex flex-col gap-1\"><span>");
        out.append(l.as_str());
        out.append("</span><input");
        out.append(props.as_str());
        out.append(" /></label>");
    } else {
        out.append("<input");
        out.append(props.as_str());
        out.append(" />");
    }
    out
}

#[verifier::rlimit(100)]
#[verifier::spinoff_prover]
fn generate_date_input(date: &DateInputElement, indent: usize) -> (r: String)
    ensures
        r@ == crate::emit::date_input_text(*date, indent as nat),
{
    let mut out = indent_string(indent);
    let class_name = ReactGenerator::format_style(&date.style);
    out.append("<input type=\"date\"");
    append_class_attr(&mut out, &class_name);
    append_opt_quoted(&mut out, " min=\"", &date.min);
    append_opt_quoted(&mut out, " max=\"", &date.max);
    append_opt_quoted(&mut out, " placeholder=\"", &date.placeholder);
    if let Some(bind) = &date.bind {
        append_bind_string_attrs(&mut out, bind.as_str());
    }
    append_opt_onchange(&mut out, &date.onChange);
    out.append(" />");
    out
}

#[verifier::rlimit(100)]
#[verifier::spinoff_prover]
fn generate_time_input(time: &TimeInputElement, indent: usize) -> (r: String)
    ensures
        r@ == crate::emit::time_input_text(*time, indent as nat),
{
    let mut out = indent_string(indent);
    let class_name = ReactGenerator::format_style(&time.style);
    out.append("<input type=\"time\"");
    append_class_attr(&mut out, &class_name);
    append_opt_quoted(&mut out, " min=\"", &time.min);
    append_opt_quoted(&mut out, " max=\"", &time.max);
    if let Some(n) = time.step {
        out.append(" step=\"");
        let d = u32_string(n);
        out.append(d.as_str());
        out.append("\"");
    }
    if let Some(bind) = &time.bind {
        append_bind_string_attrs(&mut out, bind.as_str());
    }
    out.append(" />");
    out
}

#[verifier::rlimit(100)]
#[verifier::spinoff_prover]
fn generate_datetime_input(datetime: &DateTimeInputElement, indent: usize) -> (r: String)
    ensures
        r@ == crate::emit::datetime_input_text(*datetime, indent as nat),
{
    let mut out = indent_string(indent);
    let class_name = ReactGenerator::format_style(&datetime.style);
    out.append("<input type=\"datetime-local\"");
    append_class_attr(&mut out, &class_name);
    append_opt_quoted(&mut out, " min=\"", &datetime.min);
    append_opt_quoted(&mut out, " max=\"", &datetime.max);
    if let Some(bind) = &datetime.bind {
        append_bind_string_attrs(&mut out, bind.as_str());
    }
    out.append(" />");
    out
}

#[verifier::rlimit(100)]
#[verifier::spinoff_prover]
fn generate_color_picker(color: &ColorPickerElement, indent: usize) -> (r: String)
    ensures
        r@ == crate::emit::color_picker_text(*color, indent as nat),
{
    let mut out = indent_string(indent);
    let class_name = ReactGenerator::format_style(&color.style);
    out.append("<input type=\"color\"");
    append_class_attr(&mut out, &class_name);
    if let Some(bind) = &color.bind {
        append_bind_string_attrs(&mut out, bind.as_str());
    }
    append_opt_onchange(&mut out, &color.onChange);
    out.append(" />");
    out
}

#[verifier::rlimit(100)]
#[verifier::spinoff_prover]
fn generate_file_upload(file: &FileUploadElement, indent: usize) -> (r: String)
    ensures
        r@ == crate::emit::file_upload_text(*file, indent as nat),
{
    let mut out = indent_string(indent);
    let class_name = ReactGenerator::format_style(&file.style);
    out.append("<input type=\"file\"");
    append_class_attr(&mut out, &class_name);
    append_opt_quoted(&mut out, " accept=\"", &file.accept);
    append_opt_quoted(&mut out, " data-max-size=\"", &file.maxSize);
    if file.multiple == Some(true) {
        out.append(" multiple");
    }
    out.append(" />");
    out
}

#[verifier::rlimit(100)]
#[verifier::spinoff_prover]
fn generate_progress(progress: &ProgressElement, indent: usize) -> (r: String)
    ensures
        r@ == crate::emit::progress_text(*progress, indent as nat),
{
    let mut out = indent_string(indent);
    let class_name = ReactGenerator::format_style(&progress.style);
    let value = if let Some(bind) = &progress.bind {
        ReactGenerator::to_camel_case(bind.as_str())
    } else if let Some(v) = &progress.value {
        v.clone()
    } else {
        String::from_str("0")
    };
    out.append("<div");
    out.append(" role=\"progressbar\"");
    append_class_attr(&mut out, &class_name);
    append_opt_u32(&mut out, " aria-valuemax=\"", progress.max, "\"");
    append_wrapped(&mut out, " aria-valuenow={", value.as_str(), "}");
    append_wrapped(&mut out, " style={{width: `${", value.as_str(), "}%`}}");
    out.append(" />");
    if progress.showLabel == Some(true) {
        append_wrapped(&mut out, "<span className=\"text-sm ml-2\">", value.as_str(), "%</span>");
    }
    out
}

#[verifier::rlimit(100)]
#[verifier::spinoff_prover]
fn generate_toggle(toggle: &ToggleElement, indent: usize) -> (r: String)
    ensures
        r@ == crate::emit::toggle_text(*toggle, indent as nat),
{
    let indent_str = indent_string(indent);
    let mut out = indent_str.clone();
    out.append("<label className=\"inline-flex items-center cursor-pointer gap-3\">");
    if let Some(l) = &toggle.label {
        out.append("<span className=\"font-medium\">");
        out.append(l.as_str());
        out.append("</span>");
    }
    out.append("<Switch.Root className=\"Switch-root\" id=\"toggle\"");
    append_opt_camel(&mut out, " checked={", &toggle.bind, "}");
    out.append(" ");
    append_opt_setter(&mut out, "onCheckedChange={(checked) => ", &toggle.bind, "(checked)}");
    out.append(">");
    out.append(indent_str.as_str());
    out.append("  <Switch.Thumb className=\"Switch-thumb\" />");
    out.append(indent_str.as_str());
    out.append("</Switch.Root></label>");
    out
}

#[verifier::rlimit(100)]
#[verifier::spinoff_prover]
fn generate_counter(counter: &CounterElement, indent: usize) -> (r: String)
    ensures
        r@ == crate::emit::counter_text(*counter, indent as nat),
{
    let indent_str = indent_string(indent);
    let class_name = ReactGenerator::format_style(&counter.style);
    let mut out = indent_str.clone();
    out.append("<NumberField.Root className=\"");
    if class_name.as_str().is_empty() {
        out.append("NumberField-root");
    } else {
        out.append("NumberField-root ");
        out.append(class_name.as_str());
    }
    out.append("\"");
    append_opt_camel(&mut out, " value={", &counter.bind, "}");
    append_opt_i32(&mut out, " min={", counter.min, "}");
    append_opt_i32(&mut out, " max={", counter.max, "}");
    append_opt_i32(&mut out, " step={", counter.step, "}");
    append_opt_setter(&mut out, " onValueChange={(value) => ", &counter.bind, "(value)}");
    out.append(">\n");
    out.append(indent_str.as_str());
    out.append("<NumberField.Decrement className=\"NumberField-decrement\">\n");
    out.append(indent_str.as_str());
    out.append("    <span>-</span>\n");
    out.append(indent_str.as_str());
    out.append("  </NumberField.Decrement>\n");
    out.append(indent_str.as_str());
    out.append("  <NumberField.Input className=\"NumberField-input\" />\n");
    out.append(indent_str.as_str());
    out.append("  <NumberField.Increment className=\"NumberField-increment\">\n");
    out.append(indent_str.as_str());
    out.append("    <span>+</span>\n");
    out.append(indent_str.as_str());
    out.append("  </NumberField.Increment>");
    out.append("\n");
    out.append(indent_str.as_str());
    out.append("</NumberField.Root>");
    out
}

#[verifier::rlimit(100)]
#[verifier::spinoff_prover]
fn generate_search_input(search: &SearchInputElement, indent: usize) -> (r: String)
    ensures
        r@ == crate::emit::search_input_text(*search, indent as nat),
{
    let mut out = indent_string(indent);
    let class_name = ReactGenerator::format_style(&search.style);
    out.append("<div>");
    if !class_name.as_str().is_empty() {
        out.append("<span className=\"");
        out.append(class_name.as_str());
        out.append("\"></span>");
    }
    out.append("<input ");
    out.append("type=\"search\"");
    append_class_attr(&mut out, &class_name);
    append_opt_quoted(&mut out, " placeholder=\"", &search.placeholder);
    if let Some(bind) = &search.bind {
        append_bind_string_attrs(&mut out, bind.as_str());
    }
    if search.clearable == Some(true) {
        out.append(" onClear");
    }
    append_opt_wrapped(&mut out, " onSearch={() => ", &search.onSearch, "}");
    out.append(" /></div>");
    out
}

#[verifier::rlimit(100)]
#[verifier::spinoff_prover]
fn generate_copy_button(copy: &CopyButtonElement, indent: usize) -> (r: String)
    ensures
        r@ == crate::emit::copy_button_text(*copy, indent as nat),
{
    let mut out = indent_string(indent);
    let class_name = ReactGenerator::format_style(&copy.style);
    let mut content = String::new();
    if let Some(s) = &copy.content {
        content.append("\"");
        content.append(s.as_str());
        content.append("\"");
    } else if let Some(s) = &copy.text {
        content.append("\"");
        content.append(s.as_str());
        content.append("\"");
    } else {
        content.append("''");
    }
    out.append("<button ");
    if let Some(h) = &copy.onCopy {
        out.append("onClick={() => navigator.clipboard.writeText(");
        out.append(content.as_str());
        out.append(") && ");
        out.append(h.as_str());
        out.append("}");
    } else {
        out.append("onClick={() => navigator.clipboard.writeText(");
        out.append(content.as_str());
        out.append(")}");
    }
    out.append(" className=\"inline-flex items-center ");
    out.append(class_name.as_str());
    out.append("\">");
    if let Some(t) = &copy.text {
        out.append(t.as_str());
    } else {
        out.append("Copy");
    }
    out.append("</button>");
    out
}

#[verifier::rlimit(100)]
#[verifier::spinoff_prover]
fn pagination_pages(pagination: &PaginationElement) -> (r: String)
    ensures
        r@ == crate::emit::pagination_pages_text(*pagination),
{
    let total: u32 = match pagination.total {
        Some(n) => n,
        None => 100,
    };
    let per_page: u32 = match pagination.perPage {
        Some(n) => n,
        None => 10,
    };
    let total_pages: u64 = if per_page == 0 {
        if total == 0 {
            0
        } else {
            0xffff_ffff
        }
    } else {
        ((total as u64) + (per_page as u64) - 1) / (per_page as u64)
    };
    u64_string(total_pages)
}

#[verifier::rlimit(100)]
#[verifier::spinoff_prover]
fn pagination_prev(pagination: &PaginationElement) -> (r: String)
    ensures
        r@ == crate::emit::pagination_prev_text(*pagination),
{
    let mut out = String::new();
    match &pagination.bind {
        Some(bind) => {
            let c = ReactGenerator::to_camel_case(bind.as_str());
            out.append("onClick={() => ");
            out.append(c.as_str());
            out.append(" > 1 && ");
            append_setter(&mut out, bind.as_str());
            out.append("(");
            out.append(c.as_str());
            out.append(" - 1)}");
        },
        None => {
            out.append("onClick={{() => {}}}");
        },
    }
    out
}

#[verifier::rlimit(100)]
#[verifier::spinoff_prover]
fn pagination_next(pagination: &PaginationElement) -> (r: String)
    ensures
        r@ == crate::emit::pagination_next_text(*pagination),
{
    let pages = pagination_pages(pagination);
    let mut out = String::new();
    match &pagination.bind {
        Some(bind) => {
            let c = ReactGenerator::to_camel_case(bind.as_str());
            out.append("onClick={() => ");
            out.append(c.as_str());
            out.append(" < ");
            out.append(pages.as_str());
            out.append(" && ");
            append_setter(&mut out, bind.as_str());
            out.append("(");
            out.append(c.as_str());
            out.append(" + 1)}");
        },
        None => {
            out.append("onClick={{() => {}}}");
        },
    }
    out
}

#[verifier::rlimit(100)]
#[verifier::spinoff_prover]
fn pagination_current(pagination: &PaginationElement) -> (r: String)
    ensures
        r@ == crate::emit::pagination_current_text(*pagination),
{
    let pages = pagination_pages(pagination);
    let mut out = String::new();
    match &pagination.bind {
        Some(bind) => {
            let c = ReactGenerator::to_camel_case(bind.as_str());
            out.append(
                "<span className=\"px-4 py-2 border bg-blue-50 text-blue-600 font-medium\">Page { ",
            );
            out.append(c.as_str());
            out.append(" } of ");
            out.append(pages.as_str());
            out.append("</span>");
        },
        None => {
            out.append(
                "<span className=\"px-4 py-2 border bg-blue-50 text-blue-600 font-medium\">Page 1 of ",
            );
            out.append(pages.as_str());
            out.append("</span>");
        },
    }
    out
}

#[verifier::rlimit(100)]
#[verifier::spinoff_prover]
fn generate_pagination(pagination: &PaginationElement, indent: usize) -> (r: String)
    ensures
        r@ == crate::emit::pagination_text(*pagination, indent as nat),
{
    let indent_str = indent_string(indent);
    let class_name = ReactGenerator::format_style(&pagination.style);
    let prev = pagination_prev(pagination);
    let current = pagination_current(pagination);
    let next = pagination_next(pagination);
    let mut out = indent_str.clone();
    out.append("<div className=\"flex items-center justify-center space-x-2 ");
    out.append(class_name.as_str());
    out.append("\">");
    out.append(indent_str.as_str());
    out.append("<button ");
    out.append(prev.as_str());
    out.append(" className=\"px-3 py-1 border rounded hover:bg-gray-100\">Previous</button>");
    out.append(current.as_str());
    out.append("<button ");
    out.append(next.as_str());
    out.append(" className=\"px-3 py-1 border rounded hover:bg-gray-100\">Next</button></div>");
    out
}


#[verifier::rlimit(100)]
#[verifier::spinoff_prover]
fn select_option_string(opt: &SelectOption, indent: usize) -> (r: String)
    ensures
        r@ == crate::emit::select_option_text(*opt, indent as nat),
{
    let indent_str = indent_string(indent);
    let mut out = indent_str.clone();
    out.append("        <Select.Item className=\"Select-item\" value=\"");
    out.append(opt.value.as_str());
    out.append("\">\n");
    out.append(indent_str.as_str());
    out.append("          <Select.ItemText>");
    match &opt.label {
        Some(l) => out.append(l.as_str()),
        None => out.append(opt.value.as_str()),
    }
    out.append("</Select.ItemText>\n");
    out.append(indent_str.as_str());
    out.append("        </Select.Item>\n");
    out
}

#[verifier::rlimit(100)]
#[verifier::spinoff_prover]
fn generate_select(select: &SelectElement, indent: usize) -> (r: String)
    ensures
        r@ == crate::emit::select_text(*select, indent as nat),
{
    let indent_str = indent_string(indent);
    let class_name = ReactGenerator::format_style(&select.style);
    let mut items = String::new();
    let mut i: usize = 0;
    proof {
        assert(Seq::<char>::empty() + crate::emit::select_options_text(
            select.options@,
            indent as nat,
            0,
        ) =~= crate::emit::select_options_text(select.options@, indent as nat, 0));
    }
    while i < select.options.len()
        invariant
            i <= select.options.len(),
            crate::emit::select_options_text(select.options@, indent as nat, 0) == items@
                + crate::emit::select_options_text(select.options@, indent as nat, i as nat),
        decreases select.options.len() - i,
    {
        let item = select_option_string(&select.options[i], indent);
        items.append(item.as_str());
        i = i + 1;
    }
    let mut out = indent_str.clone();
    out.append("<Select.Root");
    append_opt_camel(&mut out, " value={", &select.bind, "}");
    append_opt_setter(&mut out, " onValueChange={(value) => ", &select.bind, "(value)}");
    out.append(">\n");
    out.append(indent_str.as_str());
    out.append("  <Select.Trigger");
    append_based_class(&mut out, "Select-trigger", &class_name);
    out.append(">\n");
    out.append(indent_str.as_str());
    out.append("    <Select.Value />\n");
    out.append(indent_str.as_str());
    out.append("    <Select.Icon />\n");
    out.append(indent_str.as_str());
    out.append("  </Select.Trigger>\n");
    out.append(indent_str.as_str());
    out.append("  <Select.Portal>\n");
    out.append(indent_str.as_str());
    out.append("    <Select.Positioner sideOffset={8}>\n");
    out.append(indent_str.as_str());
    out.append("      <Select.Popup className=\"Select-popup\">\n");
    out.append(items.as_str());
    out.append(indent_str.as_str());
    out.append("      </Select.Popup>\n");
    out.append(indent_str.as_str());
    out.append("    </Select.Positioner>\n");
    out.append(indent_str.as_str());
    out.append("  </Select.Portal>\n");
    out.append(indent_str.as_str());
    out.append("</Select.Root>");
    out
}

#[verifier::rlimit(100)]
#[verifier::spinoff_prover]
fn radio_option_string(opt: &RadioOption, indent: usize) -> (r: String)
    ensures
        r@ == crate::emit::radio_option_text(*opt, indent as nat),
{
    let indent_str = indent_string(indent);
    let mut out = indent_str.clone();
    out.append("  <label className=\"flex items-center gap-2 cursor-pointer py-1\">\n");
    out.append(indent_str.as_str());
    out.append("    <Radio.Root className=\"Radio-root\" value=\"");
    out.append(opt.value.as_str());
    out.append("\">\n");
    out.append(indent_str.as_str());
    out.append("      <Radio.Indicator className=\"Radio-indicator\" />\n");
    out.append(indent_str.as_str());
    out.append("    </Radio.Root>\n");
    out.append(indent_str.as_str());
    out.append("    <span>");
    match &opt.label {
        Some(l) => out.append(l.as_str()),
        None => out.append(opt.value.as_str()),
    }
    out.append("</span>\n");
    out.append(indent_str.as_str());
    out.append("  </label>\n");
    out
}

#[verifier::rlimit(100)]
#[verifier::spinoff_prover]
fn generate_radio_group(radio: &RadioGroupElement, indent: usize) -> (r: String)
    ensures
        r@ == crate::emit::radio_group_text(*radio, indent as nat),
{
    let indent_str = indent_string(indent);
    let class_name = ReactGenerator::format_style(&radio.style);
    let mut items = String::new();
    let mut i: usize = 0;
    proof {
        assert(Seq::<char>::empty() + crate::emit::radio_options_text(
            radio.options@,
            indent as nat,
            0,
        ) =~= crate::emit::radio_options_text(radio.options@, indent as nat, 0));
    }
    while i < radio.options.len()
        invariant
            i <= radio.options.len(),
            crate::emit::radio_options_text(radio.options@, indent as nat, 0) == items@
                + crate::emit::radio_options_text(radio.options@, indent as nat, i as nat),
        decreases radio.options.len() - i,
    {
        let item = radio_option_string(&radio.options[i], indent);
        items.append(item.as_str());
        i = i + 1;
    }
    let mut out = indent_str.clone();
    out.append("<RadioGroup");
    append_based_class(&mut out, "RadioGroup", &class_name);
    if radio.options.len() > 0 {
        out.append(" defaultValue=\"");
        out.append(radio.options[0].value.as_str());
        out.append("\"");
    }
    out.append(">\n");
    if let Some(l) = &radio.label {
        out.append(indent_str.as_str());
        out.append("  <p>");
        out.append(l.as_str());
        out.append("</p>\n");
    }
    out.append(items.as_str());
    out.append(indent_str.as_str());
    out.append("</RadioGroup>\n");
    out
}

#[verifier::rlimit(100)]
#[verifier::spinoff_prover]
fn tab_string(tabs: &TabsElement, tab: &TabItem, indent: usize) -> (r: String)
    ensures
        r@ == crate::emit::tab_text(*tabs, *tab, indent as nat),
{
    let mut out = indent_string(indent);
    out.append("      <label className=\"cursor-pointer whitespace-nowrap py-4 px-1 border-b-2\">");
    match &tab.label {
        Some(l) => out.append(l.as_str()),
        None => out.append(tab.value.as_str()),
    }
    out.append("<input ");
    out.append("type=\"radio\" name=\"tabs\" value=\"");
    out.append(tab.value.as_str());
    out.append("\" className=\"sr-only\"");
    if let Some(bind) = &tabs.bind {
        let c = ReactGenerator::to_camel_case(bind.as_str());
        out.append(" checked={");
        out.append(c.as_str());
        out.append(" === \"");
        out.append(tab.value.as_str());
        out.append("\"}");
        out.append(" onChange={() => ");
        append_setter(&mut out, bind.as_str());
        out.append("(\"");
        out.append(tab.value.as_str());
        out.append("\")}");
    }
    out.append(" /></label>\n");
    out
}

#[verifier::rlimit(100)]
#[verifier::spinoff_prover]
fn generate_tabs(tabs: &TabsElement, indent: usize) -> (r: String)
    ensures
        r@ == crate::emit::tabs_text(*tabs, indent as nat),
{
    let indent_str = indent_string(indent);
    let class_name = ReactGenerator::format_style(&tabs.style);
    let mut items = String::new();
    let mut i: usize = 0;
    proof {
        assert(Seq::<char>::empty() + crate::emit::tabs_items_text(
            *tabs,
            tabs.options@,
            indent as nat,
            0,
        ) =~= crate::emit::tabs_items_text(*tabs, tabs.options@, indent as nat, 0));
    }
    while i < tabs.options.len()
        invariant
            i <= tabs.options.len(),
            crate::emit::tabs_items_text(*tabs, tabs.options@, indent as nat, 0) == items@
                + crate::emit::tabs_items_text(*tabs, tabs.options@, indent as nat, i as nat),
        decreases tabs.options.len() - i,
    {
        let item = tab_string(tabs, &tabs.options[i], indent);
        items.append(item.as_str());
        i = i + 1;
    }
    let mut out = indent_str.clone();
    out.append("<div");
    append_class_attr(&mut out, &class_name);
    out.append(">\n");
    if let Some(l) = &tabs.label {
        out.append(indent_str.as_str());
        out.append("  <p>");
        out.append(l.as_str());
        out.append("</p>\n");
    }
    out.append(indent_str.as_str());
    out.append("  <div>\n");
    out.append(indent_str.as_str());
    out.append("    <nav>\n");
    out.append(items.as_str());
    out.append(indent_str.as_str());
    out.append("    </nav>\n");
    out.append(indent_str.as_str());
    out.append("  </div>\n");
    out.append(indent_str.as_str());
    out.append("</div>\n");
    out
}

#[verifier::rlimit(100)]
#[verifier::spinoff_prover]
fn accordion_item_string(item: &AccordionItem, index: usize, indent: usize) -> (r: String)
    ensures
        r@ == crate::emit::accordion_item_text(*item, index as nat, indent as nat),
{
    let indent_str = indent_string(indent);
    let idx = u64_string(index as u64);
    let mut out = indent_str.clone();
    out.append("  <Accordion.Item value=\"item-");
    out.append(idx.as_str());
    out.append("\">\n");
    out.append(indent_str.as_str());
    out.append("    <Accordion.Header>\n");
    out.append(indent_str.as_str());
    out.append("      <Accordion.Trigger>\n");
    out.append(indent_str.as_str());
    out.append("        ");
    out.append(item.title.as_str());
    out.append("\n");
    out.append(indent_str.as_str());
    out.append("      </Accordion.Trigger>\n");
    out.append(indent_str.as_str());
    out.append("    </Accordion.Header>\n");
    out.append(indent_str.as_str());
    out.append("      <Accordion.Panel>\n");
    out.append(indent_str.as_str());
    out.append("        ");
    out.append(item.content.as_str());
    out.append("\n");
    out.append(indent_str.as_str());
    out.append("      </Accordion.Panel>\n");
    out.append(indent_str.as_str());
    out.append("  </Accordion.Item>\n");
    out
}

#[verifier::rlimit(100)]
#[verifier::spinoff_prover]
fn generate_accordion(accordion: &AccordionElement, indent: usize) -> (r: String)
    ensures
        r@ == crate::emit::accordion_text(*accordion, indent as nat),
{
    let indent_str = indent_string(indent);
    let mut items = String::new();
    let mut i: usize = 0;
    proof {
        assert(Seq::<char>::empty() + crate::emit::accordion_items_text(
            accordion.items@,
            indent as nat,
            0,
        ) =~= crate::emit::accordion_items_text(accordion.items@, indent as nat, 0));
    }
    while i < accordion.items.len()
        invariant
            i <= accordion.items.len(),
            crate::emit::accordion_items_text(accordion.items@, indent as nat, 0) == items@
                + crate::emit::accordion_items_text(accordion.items@, indent as nat, i as nat),
        decreases accordion.items.len() - i,
    {
        let item = accordion_item_string(&accordion.items[i], i, indent);
        items.append(item.as_str());
        i = i + 1;
    }
    let mut out = indent_str.clone();
    out.append("<Accordion.Root");
    if accordion.multiple == Some(true) {
        out.append(" multiple");
    }
    out.append(">\n");
    out.append(items.as_str());
    out.append(indent_str.as_str());
    out.append("</Accordion.Root>\n");
    out
}


#[verifier::rlimit(100)]
#[verifier::spinoff_prover]
fn generate_tooltip(tooltip: &TooltipElement, indent: usize) -> (r: String)
    ensures
        r@ == crate::emit::tooltip_text(*tooltip, indent as nat),
{
    let indent_str = indent_string(indent);
    let mut out = indent_str.clone();
    out.append("<Tooltip.Provider>\n");
    out.append(indent_str.as_str());
    out.append("  <Tooltip.Root>\n");
    if let Some(tr) = &tooltip.trigger {
        out.append(indent_str.as_str());
        out.append("    <Tooltip.Trigger>\n");
        out.append(indent_str.as_str());
        out.append("      ");
        out.append(tr.as_str());
        out.append("\n");
        out.append(indent_str.as_str());
        out.append("    </Tooltip.Trigger>\n");
    }
    out.append(indent_str.as_str());
    out.append("    <Tooltip.Portal>\n");
    out.append(indent_str.as_str());
    out.append("      <Tooltip.Positioner sideOffset={8}>\n");
    out.append(indent_str.as_str());
    out.append("        <Tooltip.Popup className=\"Tooltip-popup\">\n");
    out.append(indent_str.as_str());
    out.append("          ");
    out.append(tooltip.content.as_str());
    out.append("\n");
    out.append(indent_str.as_str());
    out.append("        </Tooltip.Popup>\n");
    out.append(indent_str.as_str());
    out.append("      </Tooltip.Positioner>\n");
    out.append(indent_str.as_str());
    out.append("    </Tooltip.Portal>\n");
    out.append(indent_str.as_str());
    out.append("  </Tooltip.Root>\n");
    out.append(indent_str.as_str());
    out.append("</Tooltip.Provider>\n");
    out
}

#[verifier::rlimit(100)]
#[verifier::spinoff_prover]
fn generate_popover(popover: &PopoverElement, indent: usize) -> (r: String)
    ensures
        r@ == crate::emit::popover_text(*popover, indent as nat),
{
    let indent_str = indent_string(indent);
    let mut out = indent_str.clone();
    out.append("<Popover.Root>\n");
    if let Some(tr) = &popover.trigger {
        out.append(indent_str.as_str());
        out.append("  <Popover.Trigger>\n");
        out.append(indent_str.as_str());
        out.append("    ");
        out.append(tr.as_str());
        out.append("\n");
        out.append(indent_str.as_str());
        out.append("  </Popover.Trigger>\n");
    }
    out.append(indent_str.as_str());
    out.append("  <Popover.Portal>\n");
    out.append(indent_str.as_str());
    out.append("    <Popover.Positioner sideOffset={8}>\n");
    out.append(indent_str.as_str());
    out.append("      <Popover.Popup className=\"Popover-popup\">\n");
    if let Some(t) = &popover.title {
        out.append(indent_str.as_str());
        out.append("        <Popover.Title className=\"Popover-title\">");
        out.append(t.as_str());
        out.append("</Popover.Title>\n");
    }
    out.append(indent_str.as_str());
    out.append("        ");
    out.append(popover.content.as_str());
    out.append("\n");
    out.append(indent_str.as_str());
    out.append("      </Popover.Popup>\n");
    out.append(indent_str.as_str());
    out.append("    </Popover.Positioner>\n");
    out.append(indent_str.as_str());
    out.append("  </Popover.Portal>\n");
    out.append(indent_str.as_str());
    out.append("</Popover.Root>\n");
    out
}

#[verifier::rlimit(100)]
#[verifier::spinoff_prover]
fn breadcrumb_item_string(item: &BreadcrumbItem, is_last: bool, indent: usize) -> (r: String)
    ensures
        r@ == crate::emit::breadcrumb_item_text(*item, is_last, indent as nat),
{
    let mut out = indent_string(indent);
    out.append("<span>");
    match &item.href {
        Some(h) => {
            out.append("<a href=\"");
            out.append(h.as_str());
            out.append("\" className=\"text-blue-600 hover:underline\">");
            out.append(item.label.as_str());
            out.append("</a>");
        },
        None => {
            out.append("<span className=\"text-gray-600\">");
            out.append(item.label.as_str());
            out.append("</span>");
        },
    }
    if !is_last {
        out.append("<span className=\"mx-2 text-gray-400\">/</span>");
    }
    out.append("</span>\n");
    out
}

#[verifier::rlimit(100)]
#[verifier::spinoff_prover]
fn generate_breadcrumb(breadcrumb: &BreadcrumbElement, indent: usize) -> (r: String)
    ensures
        r@ == crate::emit::breadcrumb_text(*breadcrumb, indent as nat),
{
    let indent_str = indent_string(indent);
    let class_name = ReactGenerator::format_style(&breadcrumb.style);
    let mut items = String::new();
    let mut i: usize = 0;
    proof {
        assert(Seq::<char>::empty() + crate::emit::breadcrumb_items_text(
            breadcrumb.items@,
            indent as nat,
            0,
        ) =~= crate::emit::breadcrumb_items_text(breadcrumb.items@, indent as nat, 0));
    }
    while i < breadcrumb.items.len()
        invariant
            i <= breadcrumb.items.len(),
            crate::emit::breadcrumb_items_text(breadcrumb.items@, indent as nat, 0) == items@
                + crate::emit::breadcrumb_items_text(breadcrumb.items@, indent as nat, i as nat),
        decreases breadcrumb.items.len() - i,
    {
        let is_last = i + 1 >= breadcrumb.items.len();
        let item = breadcrumb_item_string(&breadcrumb.items[i], is_last, indent);
        items.append(item.as_str());
        i = i + 1;
    }
    let mut out = indent_str;
    out.append("<nav");
    append_class_attr(&mut out, &class_name);
    out.append(" aria-label=\"Breadcrumb\"><ol className=\"flex items-center space-x-2\">");
    out.append(items.as_str());
    out.append("</ol></nav>");
    out
}

#[verifier::rlimit(100)]
#[verifier::spinoff_prover]
fn generate_avatar(avatar: &AvatarElement, indent: usize) -> (r: String)
    ensures
        r@ == crate::emit::avatar_text(*avatar, indent as nat),
{
    let indent_str = indent_string(indent);
    let class_name = ReactGenerator::format_style(&avatar.style);
    let mut out = indent_str.clone();
    out.append("<div className=\"flex items-center ");
    out.append(class_name.as_str());
    out.append("\">");
    out.append(indent_str.as_str());
    out.append("<div className=\"");
    match &avatar.size {
        Some(s) => {
            if str_eq(s.as_str(), "sm") {
                out.append("w-8 h-8 text-xs");
            } else if str_eq(s.as_str(), "lg") {
                out.append("w-16 h-16 text-lg");
            } else {
                out.append("w-10 h-10 text-sm");
            }
        },
        None => {
            out.append("w-10 h-10 text-sm");
        },
    }
    out.append(" rounded-full overflow-hidden bg-gray-100\">");
    match &avatar.src {
        Some(s) => {
            out.append("<img src=\"");
            out.append(s.as_str());
            out.append("\" className=\"w-full h-full object-cover rounded-full\" />");
        },
        None => {
            out.append(
                "<span className=\"flex items-center justify-center w-full h-full rounded-full bg-gray-200 text-gray-600 font-medium\">",
            );
            match &avatar.fallback {
                Some(f) => {
                    let n = f.as_str().unicode_len();
                    if n <= 2 {
                        out.append(f.as_str());
                    } else {
                        let head = f.as_str().substring_char(0, 2);
                        out.append(head);
                        proof {
                            assert(f@.subrange(0, 2) =~= f@.take(2));
                        }
                    }
                },
                None => {
                    out.append("?");
                },
            }
            out.append("</span>");
        },
    }
    out.append("</div>");
    if let Some(n) = &avatar.name {
        out.append("<span className=\"ml-2 font-medium text-gray-700\">");
        out.append(n.as_str());
        out.append("</span>");
    }
    out.append("</div>");
    out
}

#[verifier::rlimit(100)]
#[verifier::spinoff_prover]
fn chip_suggestion_string(sug: &String, bind_name: &String, setter: &String) -> (r: String)
    ensures
        r@ == crate::emit::chip_suggestion_text(sug@, bind_name@, setter@),
{
    let mut out = String::new();
    out.append("<span key=\"");
    out.append(sug.as_str());
    out.append(
        "\" className=\"inline-block px-2 py-1 bg-gray-100 text-gray-700 text-xs rounded-full mr-2 mb-1 cursor-pointer hover:bg-gray-200\" style={",
    );
    out.append(bind_name.as_str());
    out.append(".includes(\"");
    out.append(sug.as_str());
    out.append("\") ? { opacity: 0.5, pointerEvents: 'none' } : {}} onClick={() => { if (!");
    out.append(bind_name.as_str());
    out.append(".includes(\"");
    out.append(sug.as_str());
    out.append("\")) { ");
    out.append(setter.as_str());
    out.append("([...");
    out.append(bind_name.as_str());
    out.append(", \"");
    out.append(sug.as_str());
    out.append("\"]); } }}>");
    out.append(sug.as_str());
    out.append("</span>");
    out
}

#[verifier::rlimit(100)]
#[verifier::spinoff_prover]
fn chip_names(chip: &ChipInputElement) -> (r: (String, String))
    ensures
        r.0@ == crate::emit::chip_bind_name(*chip),
        r.1@ == crate::emit::chip_setter(*chip),
{
    let mut bind_name = String::new();
    let mut setter = String::new();
    if let Some(b) = &chip.bind {
        let c = ReactGenerator::to_camel_case(b.as_str());
        bind_name.append(c.as_str());
        append_setter(&mut setter, b.as_str());
        proof {
            assert(Seq::<char>::empty() + camel_case(b@) =~= camel_case(b@));
            assert(Seq::<char>::empty() + crate::emit::setter_name(b@) =~= crate::emit::setter_name(
                b@,
            ));
        }
    }
    (bind_name, setter)
}

#[verifier::rlimit(100)]
#[verifier::spinoff_prover]
fn chip_display_string(chip: &ChipInputElement) -> (r: String)
    ensures
        r@ == crate::emit::chip_display_text(*chip),
{
    let (bind_name, setter) = chip_names(chip);
    let mut out = String::new();
    if chip.bind.is_some() {
        out.append("<div className=\"flex flex-wrap gap-2 mb-2\">{");
        out.append(bind_name.as_str());
        out.append(
            ".map((chip, i) => <span key={i} className=\"px-2 py-1 bg-blue-100 text-blue-800 rounded-full text-sm flex items-center\">{chip}<button className=\"ml-1 text-blue-600 hover:text-blue-800\" onClick={() => ",
        );
        out.append(setter.as_str());
        out.append("(");
        out.append(bind_name.as_str());
        out.append(".filter((_, j) => j !== i))}></button></span>)}</div>");
    }
    out
}

#[verifier::rlimit(100)]
#[verifier::spinoff_prover]
fn chip_input_handler_string(chip: &ChipInputElement) -> (r: String)
    ensures
        r@ == crate::emit::chip_input_handler_text(*chip),
{
    let (bind_name, setter) = chip_names(chip);
    let mut out = String::new();
    if chip.bind.is_some() {
        out.append(
            "onKeyDown={(e) => { if (e.key === 'Enter') { const newValue = e.target.value.trim(); if (newValue && !",
        );
        out.append(bind_name.as_str());
        out.append(".includes(newValue)) { ");
        out.append(setter.as_str());
        out.append("([...");
        out.append(bind_name.as_str());
        out.append(", newValue]); } e.target.value = ''; } }}");
    }
    out
}

#[verifier::rlimit(100)]
#[verifier::spinoff_prover]
fn chip_suggestions_html_string(chip: &ChipInputElement) -> (r: String)
    ensures
        r@ == crate::emit::chip_suggestions_html_text(*chip),
{
    let (bind_name, setter) = chip_names(chip);
    let mut out = String::new();
    if chip.suggestions.len() > 0 {
        out.append("<div className=\"mb-2 flex flex-wrap\">");
        let mut i: usize = 0;
        let ghost total = crate::emit::chip_suggestions_text(
            chip.suggestions.deep_view(),
            bind_name@,
            setter@,
            0,
        );
        proof {
            assert("<div className=\"mb-2 flex flex-wrap\">"@ + total =~= out@ + total);
        }
        while i < chip.suggestions.len()
            invariant
                i <= chip.suggestions.len(),
                bind_name@ == crate::emit::chip_bind_name(*chip),
                setter@ == crate::emit::chip_setter(*chip),
                total == crate::emit::chip_suggestions_text(
                    chip.suggestions.deep_view(),
                    bind_name@,
                    setter@,
                    0,
                ),
                "<div className=\"mb-2 flex flex-wrap\">"@ + total == out@
                    + crate::emit::chip_suggestions_text(
                    chip.suggestions.deep_view(),
                    bind_name@,
                    setter@,
                    i as nat,
                ),
            decreases chip.suggestions.len() - i,
        {
            let item = chip_suggestion_string(&chip.suggestions[i], &bind_name, &setter);
            out.append(item.as_str());
            proof {
                assert(chip.suggestions.deep_view()[i as int] == chip.suggestions@[i as int]@);
            }
            i = i + 1;
        }
        out.append("</div>");
    }
    out
}

#[verifier::rlimit(100)]
#[verifier::spinoff_prover]
fn generate_chip_input(chip: &ChipInputElement, indent: usize) -> (r: String)
    ensures
        r@ == crate::emit::chip_input_text(*chip, indent as nat),
{
    let class_name = ReactGenerator::format_style(&chip.style);
    let display = chip_display_string(chip);
    let suggestions = chip_suggestions_html_string(chip);
    let handler = chip_input_handler_string(chip);
    let mut out = indent_string(indent);
    out.append("<div className=\"");
    out.append(class_name.as_str());
    out.append("\">");
    out.append(display.as_str());
    out.append(suggestions.as_str());
    out.append("<input type=\"text\" placeholder=\"");
    match &chip.placeholder {
        Some(p) => out.append(p.as_str()),
        None => out.append("Add tags..."),
    }
    out.append("\" ");
    out.append(handler.as_str());
    out.append(
        " className=\"w-full px-3 py-2 border rounded-lg focus:outline-none focus:ring-2 focus:ring-blue-500\" /></div>",
    );
    out
}

#[verifier::rlimit(100)]
#[verifier::spinoff_prover]
fn nav_link_string(link: &NavLink, indent: usize) -> (r: String)
    ensures
        r@ == crate::emit::nav_link_text(*link, indent as nat),
{
    let mut out = indent_string(indent);
    out.append("<a ");
    if let Some(h) = &link.href {
        out.append("href=\"");
        out.append(h.as_str());
        out.append("\"");
    }
    out.append(" className=\"text-sm font-medium transition-colors");
    if link.active == Some(true) {
        out.append(" text-blue-400");
    } else {
        out.append(" text-white hover:text-blue-400");
    }
    out.append("\">");
    out.append(link.label.as_str());
    out.append("</a>\n");
    out
}

#[verifier::rlimit(100)]
#[verifier::spinoff_prover]
fn generate_nav(nav: &NavElement, indent: usize) -> (r: String)
    ensures
        r@ == crate::emit::nav_text(*nav, indent as nat),
{
    let indent_str = indent_string(indent);
    let class_name = ReactGenerator::format_style(&nav.style);
    let mut links = String::new();
    let mut i: usize = 0;
    proof {
        assert(Seq::<char>::empty() + crate::emit::nav_links_text(nav.links@, indent as nat, 0)
            =~= crate::emit::nav_links_text(nav.links@, indent as nat, 0));
    }
    while i < nav.links.len()
        invariant
            i <= nav.links.len(),
            crate::emit::nav_links_text(nav.links@, indent as nat, 0) == links@
                + crate::emit::nav_links_text(nav.links@, indent as nat, i as nat),
        decreases nav.links.len() - i,
    {
        let item = nav_link_string(&nav.links[i], indent);
        links.append(item.as_str());
        i = i + 1;
    }
    let mut out = indent_str;
    out.append("<nav className=\"");
    out.append(class_name.as_str());
    out.append(" flex items-center justify-between px-6 py-4");
    if nav.sticky == Some(true) {
        out.append(" sticky top-0 z-50");
    }
    out.append(" ");
    if nav.transparent == Some(true) {
        out.append("bg-transparent");
    } else {
        out.append("bg-black");
    }
    out.append("\">");
    if let Some(l) = &nav.logo {
        out.append("<a href=\"/\" className=\"text-xl font-bold text-white\">");
        out.append(l.as_str());
        out.append("</a>");
    }
    out.append("<div className=\"flex items-center gap-6\">");
    out.append(links.as_str());
    out.append("</div></nav>");
    out
}

#[verifier::rlimit(100)]
#[verifier::spinoff_prover]
fn menu_nav_link_string(link: &NavLink, indent: usize) -> (r: String)
    ensures
        r@ == crate::emit::menu_nav_link_text(*link, indent as nat),
{
    let mut out = indent_string(indent);
    out.append("      <a href=\"");
    match &link.href {
        Some(h) => out.append(h.as_str()),
        None => out.append("#"),
    }
    out.append("\" className=\"NavigationMenu-link\">");
    out.append(link.label.as_str());
    out.append("</a>\n");
    out
}

#[verifier::rlimit(100)]
#[verifier::spinoff_prover]
fn menu_item_string(link: &NavLink, index: usize, indent: usize) -> (r: String)
    ensures
        r@ == crate::emit::menu_item_text(*link, index as nat, indent as nat),
{
    let indent_str = indent_string(indent);
    let idx = u64_string(index as u64);
    let mut out = indent_str.clone();
    out.append("          <Menu.Item key={");
    out.append(idx.as_str());
    out.append("} asChild>\n");
    out.append(indent_str.as_str());
    out.append("            <a ");
    if let Some(h) = &link.href {
        out.append("href=\"");
        out.append(h.as_str());
        out.append("\"");
    }
    out.append(
        " className=\"flex items-center px-3 py-2 text-sm text-gray-700 hover:bg-gray-100 rounded cursor-pointer\">\n",
    );
    out.append(indent_str.as_str());
    out.append("              ");
    out.append(link.label.as_str());
    out.append("\n");
    out.append(indent_str.as_str());
    out.append("            </a>\n");
    out.append(indent_str.as_str());
    out.append("          </Menu.Item>\n");
    out
}

#[verifier::rlimit(100)]
#[verifier::spinoff_prover]
fn generate_navigation_menu(menu: &NavigationMenuElement, indent: usize) -> (r: String)
    ensures
        r@ == crate::emit::navigation_menu_text(*menu, indent as nat),
{
    let indent_str = indent_string(indent);
    let class_name = ReactGenerator::format_style(&menu.style);
    let mut nav_links = String::new();
    let mut i: usize = 0;
    proof {
        assert(Seq::<char>::empty() + crate::emit::menu_nav_links_text(
            menu.items@,
            indent as nat,
            0,
        ) =~= crate::emit::menu_nav_links_text(menu.items@, indent as nat, 0));
    }
    while i < menu.items.len()
        invariant
            i <= menu.items.len(),
            crate::emit::menu_nav_links_text(menu.items@, indent as nat, 0) == nav_links@
                + crate::emit::menu_nav_links_text(menu.items@, indent as nat, i as nat),
        decreases menu.items.len() - i,
    {
        let item = menu_nav_link_string(&menu.items[i], indent);
        nav_links.append(item.as_str());
        i = i + 1;
    }
    let mut menu_items = String::new();
    let mut j: usize = 0;
    proof {
        assert(Seq::<char>::empty() + crate::emit::menu_items_text(menu.items@, indent as nat, 0)
            =~= crate::emit::menu_items_text(menu.items@, indent as nat, 0));
    }
    while j < menu.items.len()
        invariant
            j <= menu.items.len(),
            crate::emit::menu_items_text(menu.items@, indent as nat, 0) == menu_items@
                + crate::emit::menu_items_text(menu.items@, indent as nat, j as nat),
        decreases menu.items.len() - j,
    {
        let item = menu_item_string(&menu.items[j], j, indent);
        menu_items.append(item.as_str());
        j = j + 1;
    }
    let mut out = indent_str.clone();
    out.append("<div className=\"");
    if class_name.as_str().is_empty() {
        out.append("NavigationMenu");
    } else {
        out.append("NavigationMenu ");
        out.append(class_name.as_str());
    }
    out.append("\">\n");
    out.append(indent_str.as_str());
    out.append(
        "  <nav className=\"NavigationMenu-nav flex items-center justify-between px-6 py-4 bg-gray-900 border-b border-gray-700\">\n",
    );
    out.append(indent_str.as_str());
    out.append("    <a href=\"/\" className=\"NavigationMenu-logo\">NWL</a>\n");
    out.append(indent_str.as_str());
    out.append("    <div className=\"hidden md:flex gap-4 NavigationMenu-nav\">\n");
    out.append(nav_links.as_str());
    out.append(indent_str.as_str());
    out.append("    </div>\n");
    out.append(indent_str.as_str());
    out.append("    <Button className=\"Button md:hidden\">\n");
    out.append(indent_str.as_str());
    out.append(
        "      <svg className=\"w-5 h-5\" fill=\"none\" stroke=\"currentColor\" viewBox=\"0 0 24 24\" strokeWidth=\"2\" strokeLinecap=\"round\" strokeLinejoin=\"round\"><path d=\"M4 6h16M4 12h16M4 18h16\"></path></svg>\n",
    );
    out.append(indent_str.as_str());
    out.append("    </Button>\n");
    out.append(indent_str.as_str());
    out.append("  </nav>\n");
    out.append(indent_str.as_str());
    out.append("  <Menu.Root>\n");
    out.append(indent_str.as_str());
    out.append("    <Menu.Portal>\n");
    out.append(indent_str.as_str());
    out.append("      <Menu.Positioner sideOffset={8} className=\"z-50\">\n");
    out.append(indent_str.as_str());
    out.append(
        "        <Menu.Popup className=\"Popover-popup min-w-[200px] p-1 bg-white border rounded-lg shadow-lg\">\n",
    );
    out.append(indent_str.as_str());
    out.append("          <Menu.Arrow className=\"fill-white\" />\n");
    out.append(menu_items.as_str());
    out.append(indent_str.as_str());
    out.append("        </Menu.Popup>\n");
    out.append(indent_str.as_str());
    out.append("      </Menu.Positioner>\n");
    out.append(indent_str.as_str());
    out.append("    </Menu.Portal>\n");
    out.append(indent_str.as_str());
    out.append("  </Menu.Root>\n");
    out.append(indent_str.as_str());
    out.append("</div>\n");
    out
}

#[verifier::rlimit(100)]
#[verifier::spinoff_prover]
fn generate_url(url: &UrlElement, indent: usize) -> (r: String)
    ensures
        r@ == crate::emit::url_text(*url, indent as nat),
{
    let mut out = indent_string(indent);
    let class_name = ReactGenerator::format_style(&url.style);
    if url.placeholder.is_some() || url.bind.is_some() {
        out.append("<input type=\"url\"");
        append_opt_quoted(&mut out, " placeholder=\"", &url.placeholder);
        append_opt_camel(&mut out, " value={", &url.bind, "}");
        append_class_attr(&mut out, &class_name);
        out.append("/>");
        return out;
    }
    out.append("<a ");
    out.append("href=\"");
    if let Some(h) = &url.href {
        out.append(h.as_str());
    }
    if class_name.as_str().is_empty() {
        out.append("\"");
    } else {
        out.append("\" className=\"");
        out.append(class_name.as_str());
        out.append("\"");
    }
    out.append(" ");
    if let Some(t) = &url.target {
        out.append("target=\"");
        out.append(t.as_str());
        out.append("\"");
    }
    out.append(" ");
    let blank = match &url.target {
        Some(t) => str_eq(t.as_str(), "_blank"),
        None => false,
    };
    if blank {
        out.append("rel=\"noopener noreferrer\"");
    }
    out.append(">");
    if let Some(c) = &url.content {
        out.append(c.as_str());
    } else if let Some(h) = &url.href {
        out.append(h.as_str());
    }
    out.append("</a>");
    out
}

#[verifier::rlimit(100)]
#[verifier::spinoff_prover]
fn generate_email(email: &EmailElement, indent: usize) -> (r: String)
    ensures
        r@ == crate::emit::email_text(*email, indent as nat),
{
    let mut out = indent_string(indent);
    let class_name = ReactGenerator::format_style(&email.style);
    if email.placeholder.is_some() || email.bind.is_some() {
        out.append("<input type=\"email\"");
        append_opt_quoted(&mut out, " placeholder=\"", &email.placeholder);
        append_opt_camel(&mut out, " value={", &email.bind, "}");
        append_class_attr(&mut out, &class_name);
        out.append("/>");
        return out;
    }
    out.append("<a ");
    out.append("href=\"");
    out.append("mailto:");
    if let Some(a) = &email.address {
        out.append(a.as_str());
    }
    if let Some(s) = &email.subject {
        out.append("?subject=");
        out.append(s.as_str());
    }
    if class_name.as_str().is_empty() {
        out.append("\"");
    } else {
        out.append("\" className=\"");
        out.append(class_name.as_str());
        out.append("\"");
    }
    out.append(">");
    if let Some(c) = &email.content {
        out.append(c.as_str());
    } else if let Some(a) = &email.address {
        out.append(a.as_str());
    }
    out.append("</a>");
    out
}

#[verifier::rlimit(100)]
#[verifier::spinoff_prover]
fn list_item_string(item: &ListItem, index: usize, indent: usize) -> (r: String)
    ensures
        r@ == crate::emit::list_item_text(*item, index as nat, indent as nat),
{
    let indent_str = indent_string(indent);
    let idx = u64_string(index as u64);
    let mut out = indent_str.clone();
    out.append("  <div key=\"list-item-");
    out.append(idx.as_str());
    out.append("\" className=\"List-item\"");
    append_opt_wrapped(&mut out, " onClick={() => ", &item.onClick, "}");
    out.append(">\n");
    out.append(indent_str.as_str());
    out.append("    ");
    out.append(item.content.as_str());
    out.append("\n");
    out.append(indent_str.as_str());
    out.append("  </div>\n");
    out
}

#[verifier::rlimit(100)]
#[verifier::spinoff_prover]
fn generate_list(list: &ListElement, indent: usize) -> (r: String)
    ensures
        r@ == crate::emit::list_text(*list, indent as nat),
{
    let indent_str = indent_string(indent);
    let class_name = ReactGenerator::format_style(&list.style);
    let mut items = String::new();
    let mut i: usize = 0;
    proof {
        assert(Seq::<char>::empty() + crate::emit::list_items_text(list.items@, indent as nat, 0)
            =~= crate::emit::list_items_text(list.items@, indent as nat, 0));
    }
    while i < list.items.len()
        invariant
            i <= list.items.len(),
            crate::emit::list_items_text(list.items@, indent as nat, 0) == items@
                + crate::emit::list_items_text(list.items@, indent as nat, i as nat),
        decreases list.items.len() - i,
    {
        let item = list_item_string(&list.items[i], i, indent);
        items.append(item.as_str());
        i = i + 1;
    }
    let mut out = indent_str.clone();
    out.append("<div");
    append_based_class(&mut out, "List", &class_name);
    out.append(">\n");
    match &list.data {
        Some(d) => {
            out.append(indent_str.as_str());
            out.append("  {");
            out.append(d.as_str());
            out.append(
                ".map((item, index) => <div key={index} className=\"List-item\">{item}</div>)}\n",
            );
        },
        None => {
            out.append(items.as_str());
        },
    }
    out.append(indent_str.as_str());
    out.append("</div>\n");
    out
}

#[verifier::rlimit(100)]
#[verifier::spinoff_prover]
fn generate_captcha(captcha: &CaptchaConfig, indent: usize) -> (r: String)
    ensures
        r@ == crate::emit::captcha_text(*captcha, indent as nat),
{
    let mut out = indent_string(indent);
    match &captcha.provider {
        CaptchaProvider::Cloudflare => {
            out.append("<div className=\"cf-turnstile\" data-sitekey=\"");
            if let Some(k) = &captcha.siteKey {
                out.append(k.as_str());
            }
            out.append("\" data-theme=\"");
            match &captcha.theme {
                Some(t) => out.append(t.as_str()),
                None => out.append("auto"),
            }
            out.append("\"></div>");
        },
        CaptchaProvider::Recaptcha => {
            let v3 = match &captcha.version {
                Some(v) => str_eq(v.as_str(), "v3"),
                None => false,
            };
            if v3 {
                out.append("<div id=\"recaptcha-container\" data-sitekey=\"");
                if let Some(k) = &captcha.siteKey {
                    out.append(k.as_str());
                }
                out.append("\" data-action=\"");
                match &captcha.action {
                    Some(a) => out.append(a.as_str()),
                    None => out.append("submit"),
                }
                out.append("\"></div>");
            } else {
                out.append("<div className=\"g-recaptcha\" data-sitekey=\"");
                if let Some(k) = &captcha.siteKey {
                    out.append(k.as_str());
                }
                out.append("\"></div>");
            }
        },
        CaptchaProvider::HCaptcha => {
            out.append("<div className=\"h-captcha\" data-sitekey=\"");
            if let Some(k) = &captcha.siteKey {
                out.append(k.as_str());
            }
            out.append("\" data-theme=\"");
            match &captcha.theme {
                Some(t) => out.append(t.as_str()),
                None => out.append("light"),
            }
            out.append("\"></div>");
        },
    }
    proof {
        assert(out@ =~= crate::emit::captcha_text(*captcha, indent as nat));
    }
    out
}


/// Appends one string to a vector, extending its deep view by one element.
fn push_string(v: &mut Vec<String>, s: String)
    ensures
        final(v).deep_view() == old(v).deep_view() + seq![s@],
{
    let ghost old_dv = v.deep_view();
    let ghost sv = s@;
    v.push(s);
    proof {
        assert(v.deep_view() =~= old_dv + seq![sv]);
    }
}

/// Joins text parts with single spaces.
fn join_spaces(parts: &Vec<String>) -> (r: String)
    ensures
        r@ == crate::emit::joined_spaces(parts.deep_view()),
{
    let mut out = String::new();
    let mut i: usize = 0;
    while i < parts.len()
        invariant
            i <= parts.len(),
            out@ == crate::emit::joined_spaces(parts.deep_view().take(i as int)),
        decreases parts.len() - i,
    {
        if i > 0 {
            out.append(" ");
        }
        out.append(parts[i].as_str());
        proof {
            let pv = parts.deep_view();
            assert(pv.take(i + 1).drop_last() =~= pv.take(i as int));
            assert(pv.take(i + 1).last() == pv[i as int]);
        }
        i = i + 1;
    }
    proof {
        assert(parts.deep_view().take(parts.len() as int) =~= parts.deep_view());
    }
    out
}

#[verifier::rlimit(100)]
#[verifier::spinoff_prover]
fn required_check_string(field: &String, rule: &ValidationRule) -> (r: String)
    ensures
        r@ == crate::emit::required_check_text(field@, *rule),
{
    let mut c = String::from_str("if (!");
    let cam = ReactGenerator::to_camel_case(field.as_str());
    c.append(cam.as_str());
    c.append(".trim()) { console.error('");
    match &rule.message {
        Some(m) => c.append(m.as_str()),
        None => {
            c.append(field.as_str());
            c.append(" is required");
        },
    }
    c.append("'); _hasError = true; }");
    c
}

#[verifier::rlimit(100)]
#[verifier::spinoff_prover]
fn pattern_check_string(field: &String, p: &String, rule: &ValidationRule) -> (r: String)
    ensures
        r@ == crate::emit::pattern_check_text(field@, p@, *rule),
{
    let mut c = String::from_str("if (!new RegExp('");
    let escaped = escape_backslashes_string(p.as_str());
    c.append(escaped.as_str());
    c.append("').test(");
    let cam = ReactGenerator::to_camel_case(field.as_str());
    c.append(cam.as_str());
    c.append(")) { console.error('");
    match &rule.message {
        Some(m) => c.append(m.as_str()),
        None => {
            c.append("Invalid format for ");
            c.append(field.as_str());
        },
    }
    c.append("'); _hasError = true; }");
    c
}

#[verifier::rlimit(100)]
#[verifier::spinoff_prover]
fn min_length_check_string(field: &String, n: u32, rule: &ValidationRule) -> (r: String)
    ensures
        r@ == crate::emit::min_length_check_text(field@, n as nat, *rule),
{
    let mut c = String::from_str("if (");
    let cam = ReactGenerator::to_camel_case(field.as_str());
    c.append(cam.as_str());
    c.append(".length < ");
    let d = u32_string(n);
    c.append(d.as_str());
    c.append(") { console.error('");
    match &rule.message {
        Some(m) => c.append(m.as_str()),
        None => {
            c.append(field.as_str());
            c.append(" must be at least ");
            c.append(d.as_str());
            c.append(" characters");
        },
    }
    c.append("'); _hasError = true; }");
    c
}

#[verifier::rlimit(100)]
#[verifier::spinoff_prover]
fn max_length_check_string(field: &String, n: u32, rule: &ValidationRule) -> (r: String)
    ensures
        r@ == crate::emit::max_length_check_text(field@, n as nat, *rule),
{
    let mut c = String::from_str("if (");
    let cam = ReactGenerator::to_camel_case(field.as_str());
    c.append(cam.as_str());
    c.append(".length > ");
    let d = u32_string(n);
    c.append(d.as_str());
    c.append(") { console.error('");
    match &rule.message {
        Some(m) => c.append(m.as_str()),
        None => {
            c.append(field.as_str());
            c.append(" must be no more than ");
            c.append(d.as_str());
            c.append(" characters");
        },
    }
    c.append("'); _hasError = true; }");
    c
}

/// The inline checks of a form's submit handler, in declaration order.
#[verifier::rlimit(100)]
#[verifier::spinoff_prover]
fn form_checks_strings(form: &FormElement) -> (r: Vec<String>)
    ensures
        r.deep_view() == crate::emit::form_checks(*form),
{
    let mut checks: Vec<String> = Vec::new();
    if let Some(v) = &form.validation {
        let mut i: usize = 0;
        proof {
            assert(checks.deep_view() =~= Seq::<Seq<char>>::empty());
            assert(Seq::<Seq<char>>::empty() + crate::emit::validation_checks(v@, 0)
                =~= crate::emit::validation_checks(v@, 0));
        }
        while i < v.len()
            invariant
                i <= v.len(),
                crate::emit::validation_checks(v@, 0) == checks.deep_view()
                    + crate::emit::validation_checks(v@, i as nat),
            decreases v.len() - i,
        {
            let mut j: usize = 0;
            proof {
                assert(crate::emit::validation_checks(v@, i as nat) == crate::emit::rules_checks(
                    v@[i as int].0@,
                    v@[i as int].1@,
                    0,
                ) + crate::emit::validation_checks(v@, (i + 1) as nat));
            }
            while j < v[i].1.len()
                invariant
                    i < v.len(),
                    j <= v[i as int].1.len(),
                    crate::emit::validation_checks(v@, 0) == checks.deep_view()
                        + crate::emit::rules_checks(v@[i as int].0@, v@[i as int].1@, j as nat)
                        + crate::emit::validation_checks(v@, (i + 1) as nat),
                decreases v[i as int].1.len() - j,
            {
                let ghost pre = checks.deep_view();
                let field = &v[i].0;
                let rule = &v[i].1[j];
                if rule.required == Some(true) {
                    let c = required_check_string(field, rule);
                    push_string(&mut checks, c);
                }
                if let Some(p) = &rule.pattern {
                    let c = pattern_check_string(field, p, rule);
                    push_string(&mut checks, c);
                }
                if let Some(n) = rule.minLength {
                    let c = min_length_check_string(field, n, rule);
                    push_string(&mut checks, c);
                }
                if let Some(n) = rule.maxLength {
                    let c = max_length_check_string(field, n, rule);
                    push_string(&mut checks, c);
                }
                proof {
                    assert(checks.deep_view() =~= pre + crate::emit::rule_checks(
                        v@[i as int].0@,
                        v@[i as int].1@[j as int],
                    ));
                    assert(crate::emit::rules_checks(v@[i as int].0@, v@[i as int].1@, j as nat)
                        == crate::emit::rule_checks(v@[i as int].0@, v@[i as int].1@[j as int])
                        + crate::emit::rules_checks(v@[i as int].0@, v@[i as int].1@, (j + 1) as nat));
                }
                j = j + 1;
            }
            i = i + 1;
        }
        proof {
            assert(checks.deep_view() + crate::emit::validation_checks(v@, v@.len() as nat)
                =~= checks.deep_view());
        }
    } else {
        proof {
            assert(checks.deep_view() =~= Seq::<Seq<char>>::empty());
        }
    }
    if form.captcha.is_some() {
        let c = String::from_str(
            "if (!window.captchaToken) { console.error('Please complete the captcha'); _hasError = true; }",
        );
        push_string(&mut checks, c);
        proof {
            assert(c@ == crate::emit::captcha_flag_check()) by {
                reveal_strlit(
                    "if (!window.captchaToken) { console.error('Please complete the captcha'); _hasError = true; }",
                );
            }
        }
    }
    proof {
        assert(checks.deep_view() =~= crate::emit::form_checks(*form));
    }
    checks
}

/// The synthesized submit handler of a form.
#[verifier::rlimit(100)]
#[verifier::spinoff_prover]
fn generate_form_submit_handler(form: &FormElement) -> (r: String)
    ensures
        r@ == crate::emit::form_submit_handler_text(*form),
{
    let checks = form_checks_strings(form);
    let mut code = String::new();
    if checks.len() > 0 {
        code.append("let _hasError = false; ");
        let joined = join_spaces(&checks);
        code.append(joined.as_str());
        code.append(" if (_hasError) { console.error('Validation failed'); ");
        if let Some(h) = &form.onValidationError {
            code.append(h.as_str());
            code.append(";");
        }
        code.append(" return; }");
        proof {
            assert(code@ =~= crate::emit::form_validation_code(*form));
        }
    } else {
        proof {
            assert(code@ =~= crate::emit::form_validation_code(*form));
        }
    }
    let mut out = String::from_str("onSubmit={(e) => { e.preventDefault(); ");
    out.append(code.as_str());
    match &form.onSubmit {
        Some(h) => {
            out.append(" ");
            out.append(h.as_str());
            out.append(" }}");
        },
        None => {
            out.append(" }}");
        },
    }
    out
}

/// The wrapper classes of a layout: layout-kind tokens, the grid column
/// count, then the layout's own utility classes.
#[verifier::rlimit(100)]
#[verifier::spinoff_prover]
fn layout_classes_vec(layout: &Layout) -> (r: Vec<String>)
    ensures
        r.deep_view() == crate::emit::layout_classes(*layout),
{
    let mut classes: Vec<String> = Vec::new();
    match &layout.layout_type {
        LayoutType::Column => {
            push_string(&mut classes, String::from_str("flex flex-col"));
        },
        LayoutType::Row => {
            push_string(&mut classes, String::from_str("flex flex-row"));
        },
        LayoutType::Stack => {
            push_string(&mut classes, String::from_str("relative"));
        },
        LayoutType::Grid => {
            push_string(&mut classes, String::from_str("grid"));
            if let Some(n) = layout.columns {
                let mut c = String::from_str("grid-cols-");
                let d = u32_string(n);
                c.append(d.as_str());
                push_string(&mut classes, c);
            }
        },
    }
    let ghost base = classes.deep_view();
    let mut i: usize = 0;
    while i < layout.properties.len()
        invariant
            i <= layout.properties.len(),
            classes.deep_view() == base + layout.properties.deep_view().take(i as int),
        decreases layout.properties.len() - i,
    {
        let p = layout.properties[i].clone();
        push_string(&mut classes, p);
        proof {
            let pv = layout.properties.deep_view();
            assert(pv.take(i + 1) =~= pv.take(i as int) + seq![pv[i as int]]);
        }
        i = i + 1;
    }
    proof {
        assert(layout.properties.deep_view().take(layout.properties.len() as int)
            =~= layout.properties.deep_view());
        assert(classes.deep_view() =~= crate::emit::layout_classes(*layout));
    }
    classes
}


/// One generated line per element of the list: padding, the element's own
/// text, a newline.
fn element_lines_string(es: &Vec<Element>, pad: &str, indent: usize) -> (r: String)
    ensures
        r@ == crate::emit::element_lines(es@, pad@, indent as nat, 0),
    decreases es@, 1int,
{
    let mut out = String::new();
    let mut i: usize = 0;
    proof {
        assert(Seq::<char>::empty() + crate::emit::element_lines(es@, pad@, indent as nat, 0)
            =~= crate::emit::element_lines(es@, pad@, indent as nat, 0));
    }
    while i < es.len()
        invariant
            i <= es.len(),
            crate::emit::element_lines(es@, pad@, indent as nat, 0) == out@
                + crate::emit::element_lines(es@, pad@, indent as nat, i as nat),
        decreases es.len() - i,
    {
        out.append(pad);
        let child = element_string(&es[i], indent);
        out.append(child.as_str());
        out.append("\n");
        i = i + 1;
    }
    out
}

#[verifier::rlimit(100)]
#[verifier::spinoff_prover]
fn generate_card(card: &CardElement, indent: usize) -> (r: String)
    ensures
        r@ == crate::emit::card_text(*card, indent as nat),
    decreases *card, 2int,
{
    let indent_str = indent_string(indent);
    let class_name = ReactGenerator::format_style(&card.style);
    let mut pad = indent_str.clone();
    pad.append("  ");
    let children = element_lines_string(&card.children, pad.as_str(), deeper(indent, 1));
    let mut out = indent_str.clone();
    out.append("<div");
    append_based_class(&mut out, "Card", &class_name);
    out.append(">\n");
    out.append(children.as_str());
    out.append(indent_str.as_str());
    out.append("</div>\n");
    out
}

#[verifier::rlimit(100)]
#[verifier::spinoff_prover]
fn generate_container(container: &ContainerElement, indent: usize) -> (r: String)
    ensures
        r@ == crate::emit::container_text(*container, indent as nat),
    decreases *container, 2int,
{
    let indent_str = indent_string(indent);
    let class_name = ReactGenerator::format_style(&container.style);
    let mut pad = indent_str.clone();
    pad.append("  ");
    let children = element_lines_string(&container.children, pad.as_str(), deeper(indent, 1));
    let mut out = indent_str.clone();
    out.append("<div");
    append_class_attr(&mut out, &class_name);
    out.append(">\n");
    out.append(children.as_str());
    out.append(indent_str.as_str());
    out.append("</div>\n");
    out
}

#[verifier::rlimit(100)]
#[verifier::spinoff_prover]
fn generate_layout(layout: &LayoutElement, indent: usize) -> (r: String)
    ensures
        r@ == crate::emit::layout_element_text(*layout, indent as nat),
    decreases *layout, 2int,
{
    let indent_str = indent_string(indent);
    let props = ReactGenerator::format_layout_props(&layout.layout);
    let mut pad = indent_str.clone();
    pad.append("  ");
    let children = element_lines_string(&layout.children, pad.as_str(), deeper(indent, 1));
    let mut out = indent_str.clone();
    out.append("<div");
    out.append(props.as_str());
    out.append(">\n");
    out.append(children.as_str());
    out.append(indent_str.as_str());
    out.append("</div>\n");
    out
}

#[verifier::rlimit(100)]
#[verifier::spinoff_prover]
fn generate_form(form: &FormElement, indent: usize) -> (r: String)
    ensures
        r@ == crate::emit::form_text(*form, indent as nat),
    decreases *form, 2int,
{
    let indent_str = indent_string(indent);
    let class_name = ReactGenerator::format_style(&form.style);
    let handler = generate_form_submit_handler(form);
    let mut pad = indent_str.clone();
    pad.append("  ");
    let children = element_lines_string(&form.children, pad.as_str(), deeper(indent, 1));
    let mut out = indent_str.clone();
    out.append("<Form");
    append_based_class(&mut out, "Form", &class_name);
    out.append(" ");
    out.append(handler.as_str());
    out.append(">\n");
    out.append(children.as_str());
    if let Some(c) = &form.captcha {
        out.append(indent_str.as_str());
        out.append("  ");
        let cap = generate_captcha(c, deeper(indent, 1));
        out.append(cap.as_str());
        out.append("\n");
    }
    out.append(indent_str.as_str());
    out.append("</Form>\n");
    out
}

#[verifier::rlimit(100)]
#[verifier::spinoff_prover]
fn generate_fieldset(fieldset: &FieldsetElement, indent: usize) -> (r: String)
    ensures
        r@ == crate::emit::fieldset_text(*fieldset, indent as nat),
    decreases *fieldset, 2int,
{
    let indent_str = indent_string(indent);
    let class_name = ReactGenerator::format_style(&fieldset.style);
    let mut pad = indent_str.clone();
    pad.append("  ");
    let children = element_lines_string(&fieldset.children, pad.as_str(), deeper(indent, 1));
    let mut out = indent_str.clone();
    out.append("<Fieldset.Root");
    append_based_class(&mut out, "Fieldset-root", &class_name);
    out.append(">\n");
    if let Some(l) = &fieldset.legend {
        out.append(indent_str.as_str());
        out.append("  <Fieldset.Legend className=\"Fieldset-legend\">");
        out.append(l.as_str());
        out.append("</Fieldset.Legend>\n");
    }
    out.append(children.as_str());
    out.append(indent_str.as_str());
    out.append("</Fieldset.Root>\n");
    out
}

#[verifier::rlimit(100)]
#[verifier::spinoff_prover]
fn generate_dialog(dialog: &DialogElement, indent: usize) -> (r: String)
    ensures
        r@ == crate::emit::dialog_text(*dialog, indent as nat),
    decreases *dialog, 2int,
{
    let indent_str = indent_string(indent);
    let class_name = ReactGenerator::format_style(&dialog.style);
    let mut pad = indent_str.clone();
    pad.append("        ");
    let children = element_lines_string(&dialog.children, pad.as_str(), deeper(indent, 4));
    let mut out = indent_str.clone();
    out.append("<Dialog.Root");
    append_opt_camel(&mut out, " open={", &dialog.open, "}");
    append_opt_setter(&mut out, " onOpenChange={open => ", &dialog.open, "(open)}");
    out.append(">\n");
    if dialog.open.is_none() {
        out.append(indent_str.as_str());
        out.append("  <Dialog.Trigger asChild>\n");
        out.append(indent_str.as_str());
        out.append("    <Button>Open dialog</Button>\n");
        out.append(indent_str.as_str());
        out.append("  </Dialog.Trigger>\n");
    }
    out.append(indent_str.as_str());
    out.append("  <Dialog.Portal>\n");
    out.append(indent_str.as_str());
    out.append("    <Dialog.Backdrop className=\"Dialog-backdrop\" />\n");
    out.append(indent_str.as_str());
    out.append("    <Dialog.Popup className=\"");
    if class_name.as_str().is_empty() {
        out.append("Dialog-popup");
    } else {
        out.append("Dialog-popup ");
        out.append(class_name.as_str());
    }
    out.append("\">\n");
    if let Some(t) = &dialog.title {
        out.append(indent_str.as_str());
        out.append("      <Dialog.Title className=\"Dialog-title\">");
        out.append(t.as_str());
        out.append("</Dialog.Title>\n");
    }
    out.append(children.as_str());
    if dialog.onClose.is_some() {
        out.append(indent_str.as_str());
        out.append("      <Dialog.Close className=\"Dialog-close\">\n");
        out.append(indent_str.as_str());
        out.append("        <span className=\"sr-only\">Close</span>\n");
        out.append(indent_str.as_str());
        out.append("      </Dialog.Close>\n");
    }
    out.append(indent_str.as_str());
    out.append("    </Dialog.Popup>\n");
    out.append(indent_str.as_str());
    out.append("  </Dialog.Portal>\n");
    out.append(indent_str.as_str());
    out.append("</Dialog.Root>\n");
    out
}

/// The element dispatcher: an exhaustive match over the closed variant set.
fn element_string(element: &Element, indent: usize) -> (r: String)
    ensures
        r@ == crate::emit::element_text(*element, indent as nat),
    decreases *element, 0int,
{
    match element {
        Element::Heading(h) => generate_heading(h, indent),
        Element::Text(t) => generate_text(t, indent),
        Element::Button(b) => generate_button(b, indent),
        Element::Card(c) => generate_card(c, indent),
        Element::List(l) => generate_list(l, indent),
        Element::Layout(l) => generate_layout(l, indent),
        Element::Input(i) => generate_input(i, indent),
        Element::Image(i) => generate_image(i, indent),
        Element::Spacer(sp) => generate_spacer(sp, indent),
        Element::Container(c) => generate_container(c, indent),
        Element::Checkbox(c) => generate_checkbox(c, indent),
        Element::Slider(sl) => generate_slider(sl, indent),
        Element::Select(se) => generate_select(se, indent),
        Element::RadioGroup(rg) => generate_radio_group(rg, indent),
        Element::Textarea(t) => generate_textarea(t, indent),
        Element::Form(f) => generate_form(f, indent),
        Element::Field(f) => generate_field(f, indent),
        Element::Fieldset(f) => generate_fieldset(f, indent),
        Element::DateInput(d) => generate_date_input(d, indent),
        Element::TimeInput(t) => generate_time_input(t, indent),
        Element::DateTimeInput(d) => generate_datetime_input(d, indent),
        Element::ColorPicker(c) => generate_color_picker(c, indent),
        Element::FileUpload(f) => generate_file_upload(f, indent),
        Element::Progress(p) => generate_progress(p, indent),
        Element::Toggle(t) => generate_toggle(t, indent),
        Element::Tabs(t) => generate_tabs(t, indent),
        Element::Accordion(a) => generate_accordion(a, indent),
        Element::Dialog(d) => generate_dialog(d, indent),
        Element::Tooltip(t) => generate_tooltip(t, indent),
        Element::Popover(p) => generate_popover(p, indent),
        Element::Badge(b) => generate_badge(b, indent),
        Element::Tag(t) => generate_tag(t, indent),
        Element::Alert(a) => generate_alert(a, indent),
        Element::Spinner(sp) => generate_spinner(sp, indent),
        Element::Counter(c) => generate_counter(c, indent),
        Element::SearchInput(se) => generate_search_input(se, indent),
        Element::CopyButton(c) => generate_copy_button(c, indent),
        Element::Pagination(p) => generate_pagination(p, indent),
        Element::Breadcrumb(b) => generate_breadcrumb(b, indent),
        Element::Avatar(a) => generate_avatar(a, indent),
        Element::ChipInput(c) => generate_chip_input(c, indent),
        Element::Nav(n) => generate_nav(n, indent),
        Element::NavigationMenu(m) => generate_navigation_menu(m, indent),
        Element::Url(u) => generate_url(u, indent),
        Element::Email(e) => generate_email(e, indent),
    }
}

fn state_item_string(v: &StateValue) -> (r: String)
    ensures
        r@ == crate::emit::state_item_text(*v),
    decreases *v, 0int,
{
    let mut out = String::new();
    match v {
        StateValue::Str(s) => {
            out.append("\"");
            out.append(s.as_str());
            out.append("\"");
        },
        StateValue::Num(n) => {
            out.append(n.as_str());
        },
        StateValue::Bool(b) => {
            if *b {
                out.append("true");
            } else {
                out.append("false");
            }
        },
        StateValue::Null => {
            out.append("null");
        },
        StateValue::List(items) => {
            out.append("[");
            let joined = state_items_string(items);
            out.append(joined.as_str());
            out.append("]");
        },
    }
    out
}

/// The comma-joined entries of a sequence literal.
fn state_items_string(items: &Vec<StateValue>) -> (r: String)
    ensures
        r@ == crate::emit::state_items_text(items@, 0),
    decreases items@, 1int,
{
    let mut out = String::new();
    let mut i: usize = 0;
    proof {
        assert(Seq::<char>::empty() + crate::emit::state_items_text(items@, 0)
            =~= crate::emit::state_items_text(items@, 0));
    }
    while i < items.len()
        invariant
            i <= items.len(),
            crate::emit::state_items_text(items@, 0) == out@ + crate::emit::state_items_text(
                items@,
                i as nat,
            ),
        decreases items.len() - i,
    {
        if i > 0 {
            out.append(", ");
        }
        let item = state_item_string(&items[i]);
        out.append(item.as_str());
        i = i + 1;
    }
    out
}

#[verifier::rlimit(100)]
#[verifier::spinoff_prover]
fn state_literal_string(init: &Option<StateValue>) -> (r: String)
    ensures
        r@ == crate::emit::state_literal_text(*init),
{
    let mut out = String::new();
    match init {
        Some(v) => match v {
            StateValue::Num(n) => {
                out.append(n.as_str());
            },
            StateValue::Str(s) => {
                out.append("\"");
                out.append(s.as_str());
                out.append("\"");
            },
            StateValue::Bool(b) => {
                if *b {
                    out.append("true");
                } else {
                    out.append("false");
                }
            },
            StateValue::Null => {
                out.append("null");
            },
            StateValue::List(items) => {
                out.append("[");
                let joined = state_items_string(items);
                out.append(joined.as_str());
                out.append("]");
            },
        },
        None => {
            out.append("null");
        },
    }
    out
}

/// Whether any top-level child asks for the implicit hamburger-menu hook.
fn wants_menu_state_exec(children: &Vec<Element>) -> (r: bool)
    ensures
        r == crate::emit::has_hamburger_menu(children@),
{
    let mut needs_menu = false;
    let mut k: usize = 0;
    while k < children.len()
        invariant
            k <= children.len(),
            needs_menu == (exists|j: int|
                0 <= j < k && crate::emit::wants_menu_state(#[trigger] children@[j])),
        decreases children.len() - k,
    {
        if let Element::NavigationMenu(m) = &children[k] {
            if m.hamburger == Some(true) {
                needs_menu = true;
                proof {
                    assert(crate::emit::wants_menu_state(children@[k as int]));
                }
            }
        }
        k = k + 1;
    }
    needs_menu
}

/// `[name, setName] = useState(initial)` for one state definition.
fn hook_decl_string(sd: &StateDefinition) -> (r: String)
    ensures
        r@ == crate::emit::hook_decl_text(*sd),
{
    let mut out = String::from_str("[");
    let c = ReactGenerator::to_camel_case(sd.name.as_str());
    out.append(c.as_str());
    out.append(", ");
    append_setter(&mut out, sd.name.as_str());
    out.append("] = useState(");
    let lit = state_literal_string(&sd.initial);
    out.append(lit.as_str());
    out.append(")");
    out
}

impl ReactGenerator {
    /// The layout wrapper's class attribute: the layout-kind classes, the
    /// grid column count and the layout's own utility classes, space-joined.
    pub fn format_layout_props(layout: &Layout) -> (r: String)
        ensures
            r@ == crate::emit::layout_props_text(*layout),
    {
        let classes = layout_classes_vec(layout);
        let mut out = String::new();
        if classes.len() > 0 {
            out.append(" className=\"");
            let joined = join_spaces(&classes);
            out.append(joined.as_str());
            out.append("\"");
        }
        out
    }

    /// The component function of one page: its name in PascalCase, the
    /// state-hook line (implicit menu hook first), and the rendered
    /// children, wrapped when the page declares a layout.
    #[verifier::rlimit(100)]
    #[verifier::spinoff_prover]
    pub fn generate_page(page: &PageData) -> (r: Result<String, CodegenError>)
        ensures
            r matches Ok(s) && s@ == crate::emit::page_text(*page),
    {
        let component_name = Self::to_pascal_case(page.name.as_str());
        let needs_menu = wants_menu_state_exec(&page.children);
        let mut out = String::from_str("export default function ");
        out.append(component_name.as_str());
        out.append("() {\n");
        if !page.state.is_empty() || needs_menu {
            out.append("  const ");
            if needs_menu {
                out.append("[menuOpen, setMenuOpen] = useState(false)");
            }
            let mut hooks = String::new();
            let mut i: usize = 0;
            proof {
                assert(Seq::<char>::empty() + crate::emit::hook_decls_text(
                    page.state@,
                    needs_menu,
                    0,
                ) =~= crate::emit::hook_decls_text(page.state@, needs_menu, 0));
            }
            while i < page.state.len()
                invariant
                    i <= page.state.len(),
                    crate::emit::hook_decls_text(page.state@, needs_menu, 0) == hooks@
                        + crate::emit::hook_decls_text(page.state@, needs_menu, i as nat),
                decreases page.state.len() - i,
            {
                if needs_menu || i > 0 {
                    hooks.append(", ");
                }
                let d = hook_decl_string(&page.state[i]);
                hooks.append(d.as_str());
                i = i + 1;
            }
            out.append(hooks.as_str());
            out.append(";\n");
        }
        out.append("  return (\n    <>\n");
        match &page.layout {
            Some(layout) => {
                let mut classes: Vec<String> = Vec::new();
                let mut i: usize = 0;
                proof {
                    assert(classes.deep_view() =~= Seq::<Seq<char>>::empty());
                    assert(Seq::<Seq<char>>::empty() + page.style.deep_view().take(0)
                        =~= page.style.deep_view().take(0));
                }
                while i < page.style.len()
                    invariant
                        i <= page.style.len(),
                        classes.deep_view() == page.style.deep_view().take(i as int),
                    decreases page.style.len() - i,
                {
                    let ghost pre = classes.deep_view();
                    classes.push(page.style[i].clone());
                    proof {
                        assert(classes.deep_view() =~= pre.push(page.style.deep_view()[i as int]));
                        assert(page.style.deep_view().take(i + 1) =~= page.style.deep_view().take(
                            i as int,
                        ).push(page.style.deep_view()[i as int]));
                    }
                    i = i + 1;
                }
                proof {
                    assert(page.style.deep_view().take(page.style@.len() as int)
                        =~= page.style.deep_view());
                }
                let layout_tokens = layout_classes_vec(layout);
                let mut j: usize = 0;
                while j < layout_tokens.len()
                    invariant
                        j <= layout_tokens.len(),
                        layout_tokens.deep_view() == crate::emit::layout_classes(*layout),
                        classes.deep_view() == page.style.deep_view()
                            + layout_tokens.deep_view().take(j as int),
                    decreases layout_tokens.len() - j,
                {
                    let ghost pre = classes.deep_view();
                    classes.push(layout_tokens[j].clone());
                    proof {
                        assert(classes.deep_view() =~= pre.push(
                            layout_tokens.deep_view()[j as int],
                        ));
                        assert(layout_tokens.deep_view().take(j + 1)
                            =~= layout_tokens.deep_view().take(j as int).push(
                            layout_tokens.deep_view()[j as int],
                        ));
                    }
                    j = j + 1;
                }
                proof {
                    assert(layout_tokens.deep_view().take(layout_tokens@.len() as int)
                        =~= layout_tokens.deep_view());
                    assert(classes.deep_view() =~= crate::emit::page_wrapper_classes(
                        *page,
                        *layout,
                    ));
                }
                out.append("      <div");
                if classes.len() > 0 {
                    out.append(" className=\"");
                    let joined = join_spaces(&classes);
                    out.append(joined.as_str());
                    out.append("\"");
                }
                out.append(">\n");
                let children = element_lines_string(&page.children, "        ", 2);
                out.append(children.as_str());
                out.append("      </div>\n");
            },
            None => {
                let children = element_lines_string(&page.children, "      ", 1);
                out.append(children.as_str());
            },
        }
        out.append("    </>\n  );\n}\n");
        Ok(out)
    }

    /// The whole component source file of one page: the React import (with
    /// the state hook whenever the component declares any hook, the
    /// implicit menu hook included), the component library imports, and
    /// the component function. The stylesheet configuration does not
    /// change the component text; the stylesheet import stands in the
    /// router module.
    pub fn generate(page: &Page, css_theme: &Option<String>, css_override: &Option<String>) -> (r:
        Result<String, CodegenError>)
        ensures
            r matches Ok(s) && s@ == crate::emit::component_text(page.page_data),
    {
        let needs_menu = wants_menu_state_exec(&page.page_data.children);
        let mut out = String::new();
        if !page.page_data.state.is_empty() || needs_menu {
            out.append("import React, { useState } from 'react';\n");
        } else {
            out.append("import React from 'react';\n");
        }
        out.append(
            "import {\n  Button,\n  Checkbox,\n  Select,\n  Radio,\n  RadioGroup,\n  Switch,\n  Separator,\n  NumberField,\n  Dialog,\n  Menu,\n  Accordion,\n  Form,\n  Field,\n  Fieldset,\n  Tooltip,\n  Popover,\n} from '@base-ui/react';\n\n",
        );
        match Self::generate_page(&page.page_data) {
            Ok(s) => {
                out.append(s.as_str());
                out.append("\n");
                Ok(out)
            },
            Err(e) => {
                proof {
                    assert(false);
                }
                Err(e)
            },
        }
    }
}

/// Lowers one element to its JSX fragment at the given indentation level.
pub fn generate_element(element: &Element, indent: usize) -> (r: Result<String, CodegenError>)
    ensures
        r matches Ok(s) && s@ == crate::emit::element_text(*element, indent as nat),
{
    Ok(element_string(element, indent))
}

/// One component source file per page, from the page and the project's
/// stylesheet configuration.
pub fn generate_react(page: &Page, css_theme: &Option<String>, css_override: &Option<String>) -> (r:
    Result<String, CodegenError>)
    ensures
        r matches Ok(s) && s@ == crate::emit::component_text(page.page_data),
{
    ReactGenerator::generate(page, css_theme, css_override)
}

/// The router entry module: bootstrap imports, a stylesheet import when a
/// theme or an override is configured, the accumulated component imports,
/// and the route table. The project name does not appear in the module
/// text.
pub fn generate_router(
    name: &str,
    imports: &str,
    routes: &str,
    css_theme: &Option<String>,
    css_override: &Option<String>,
) -> (r: String)
    ensures
        r@ == crate::emit::router_text(
            imports@,
            routes@,
            css_theme is Some || css_override is Some,
        ),
{
    let has_css = css_theme.is_some() || css_override.is_some();
    let mut out = String::from_str(
        "import React from 'react'\nimport ReactDOM from 'react-dom/client'\nimport { BrowserRouter, Routes, Route } from 'react-router-dom'\nimport './index.css'\n",
    );
    if has_css {
        out.append("import '../themes/processed.css';\n");
    }
    out.append("\n\n");
    out.append(imports);
    out.append(
        "\n\n\nReactDOM.createRoot(document.getElementById('root')!).render(\n  <React.StrictMode>\n    <BrowserRouter>\n      <Routes>\n",
    );
    out.append(routes);
    out.append(
        "\n      </Routes>\n    </BrowserRouter>\n  </React.StrictMode>,\n)\n",
    );
    out
}


impl CodegenError {
    /// This error as the shared compile-error value.
    pub fn to_compile_error(&self) -> (r: CompileError)
        ensures
            r matches CompileError::Codegen(m) && m@ == "Unsupported element type"@,
    {
        CompileError::Codegen(self.message())
    }
}

/// The theme-and-override stylesheet bundle of a document.
#[verifier::rlimit(100)]
#[verifier::spinoff_prover]
#[verifier::loop_isolation(false)]
pub fn generate_css(document: &Document) -> (r: Result<String, CodegenError>)
    ensures
        r matches Ok(s) && s@ == crate::emit::css_bundle_text(*document),
{
    let ghost pages = document.pages@;
    let mut css_output = String::new();
    let mut override_css = String::new();
    let mut has_custom_theme = false;
    let mut has_override = false;
    let mut i: usize = 0;
    proof {
        assert(Seq::<char>::empty() + crate::emit::theme_blocks(pages, 0) =~= crate::emit::theme_blocks(pages, 0));
        assert(Seq::<char>::empty() + crate::emit::override_blocks(pages, 0)
            =~= crate::emit::override_blocks(pages, 0));
    }
    while i < document.pages.len()
        invariant
            i <= pages.len(),
            crate::emit::theme_blocks(pages, 0) == css_output@ + crate::emit::theme_blocks(
                pages,
                i as nat,
            ),
            crate::emit::override_blocks(pages, 0) == override_css@
                + crate::emit::override_blocks(pages, i as nat),
            has_custom_theme == (exists|j: int|
                0 <= j < i && (#[trigger] pages[j]).page_data.css_theme is Some),
            has_override == (exists|j: int|
                0 <= j < i && (#[trigger] pages[j]).page_data.css_override is Some),
        decreases document.pages.len() - i,
    {
        let page = &document.pages[i];
        if let Some(theme) = &page.page_data.css_theme {
            has_custom_theme = true;
            if str_eq(theme.as_str(), "default") {
                css_output.append("/* Default Base UI Theme */\n");
                css_output.append(crate::css_processing::DEFAULT_THEME);
                css_output.append("\n");
            } else {
                css_output.append("/* Custom theme: ");
                css_output.append(theme.as_str());
                css_output.append(" */\n@import './themes/");
                css_output.append(theme.as_str());
                css_output.append(".css';\n");
            }
            proof {
                assert(pages[i as int].page_data.css_theme is Some);
            }
        }
        if let Some(override_file) = &page.page_data.css_override {
            has_override = true;
            override_css.append("/* Override styles: ");
            override_css.append(override_file.as_str());
            override_css.append(" */\n");
            if str_eq(override_file.as_str(), "default") {
                override_css.append("/* Add your custom override styles here */\n");
            } else {
                override_css.append("@import './themes/");
                override_css.append(override_file.as_str());
                override_css.append("';\n");
            }
            proof {
                assert(pages[i as int].page_data.css_override is Some);
            }
        }
        i = i + 1;
    }
    proof {
        assert(has_custom_theme == crate::emit::any_page_theme(pages));
        assert(has_override == crate::emit::any_page_override(pages));
    }
    if !has_custom_theme {
        css_output.append("/* Default Base UI Theme */\n");
        css_output.append(crate::css_processing::DEFAULT_THEME);
        css_output.append("\n");
    }
    let mut out = css_output;
    out.append("\n===OVERRIDE_FILE===\n");
    if has_override {
        out.append(override_css.as_str());
    } else {
        out.append("/* Theme Overrides */\n/* Add your custom override styles here */\n");
    }
    Ok(out)
}

/// The stylesheet import paths a build uses, or empty paths when neither
/// the project nor any page configures styling.
#[verifier::loop_isolation(false)]
pub fn get_css_import_path(
    document: &Document,
    css_theme: &Option<String>,
    css_override: &Option<String>,
) -> (r: (String, String))
    ensures
        crate::emit::wants_css_import(
            *document,
            crate::emit::opt_view(*css_theme),
            crate::emit::opt_view(*css_override),
        ) ==> r.0@ == "./themes/theme.css"@ && r.1@ == "./themes/theme.override.css"@,
        !crate::emit::wants_css_import(
            *document,
            crate::emit::opt_view(*css_theme),
            crate::emit::opt_view(*css_override),
        ) ==> r.0@ == Seq::<char>::empty() && r.1@ == Seq::<char>::empty(),
{
    let ghost pages = document.pages@;
    let has_project_css = css_theme.is_some() || css_override.is_some();
    let mut has_page_css = false;
    let mut i: usize = 0;
    while i < document.pages.len()
        invariant
            i <= pages.len(),
            has_page_css == (exists|j: int|
                0 <= j < i && ((#[trigger] pages[j]).page_data.css_theme is Some
                    || pages[j].page_data.css_override is Some)),
        decreases document.pages.len() - i,
    {
        let page = &document.pages[i];
        if page.page_data.css_theme.is_some() || page.page_data.css_override.is_some() {
            has_page_css = true;
            proof {
                assert(pages[i as int].page_data.css_theme is Some
                    || pages[i as int].page_data.css_override is Some);
            }
        }
        i = i + 1;
    }
    proof {
        assert(has_page_css == crate::emit::any_page_css(pages));
    }
    if has_project_css || has_page_css {
        (String::from_str("./themes/theme.css"), String::from_str("./themes/theme.override.css"))
    } else {
        (String::new(), String::new())
    }
}


/// ASCII lowercase of a name, for a component's file reference.
pub fn ascii_lower_string(s: &str) -> (r: String)
    ensures
        r@ == crate::emit::ascii_lower(s@),
{
    let n = s.unicode_len();
    let mut out = String::new();
    let mut i: usize = 0;
    while i < n
        invariant
            n == s@.len(),
            i <= n,
            out@ =~= s@.take(i as int).map_values(|c: char| crate::text::lower_char(c)),
        decreases n - i,
    {
        let c = s.get_char(i);
        push_char(&mut out, crate::text::to_lower(c));
        proof {
            assert(out@ =~= s@.take(i + 1).map_values(|ch: char| crate::text::lower_char(ch)));
        }
        i = i + 1;
    }
    proof {
        assert(s@.take(n as int) =~= s@);
    }
    out
}

/// The import statements and route-table entries of a project's routes, in
/// declaration order: each entry is a path with its component name.
#[verifier::rlimit(100)]
#[verifier::spinoff_prover]
#[verifier::loop_isolation(false)]
pub fn build_route_tables(entries: &Vec<(String, String)>) -> (r: (String, String))
    ensures
        r.0@ == crate::emit::import_statements_text(
            entries@.map_values(|e: (String, String)| (e.0@, e.1@)),
            0,
        ),
        r.1@ == crate::emit::route_entries_text(
            entries@.map_values(|e: (String, String)| (e.0@, e.1@)),
            0,
        ),
{
    let ghost ev = entries@.map_values(|e: (String, String)| (e.0@, e.1@));
    let mut imports = String::new();
    let mut routes = String::new();
    let mut i: usize = 0;
    proof {
        assert(Seq::<char>::empty() + crate::emit::import_statements_text(ev, 0)
            =~= crate::emit::import_statements_text(ev, 0));
        assert(Seq::<char>::empty() + crate::emit::route_entries_text(ev, 0)
            =~= crate::emit::route_entries_text(ev, 0));
    }
    while i < entries.len()
        invariant
            i <= entries.len(),
            crate::emit::import_statements_text(ev, 0) == imports@
                + crate::emit::import_statements_text(ev, i as nat),
            crate::emit::route_entries_text(ev, 0) == routes@ + crate::emit::route_entries_text(
                ev,
                i as nat,
            ),
        decreases entries.len() - i,
    {
        let name = &entries[i].1;
        imports.append("import ");
        imports.append(name.as_str());
        imports.append(" from './");
        let lowered = ascii_lower_string(name.as_str());
        imports.append(lowered.as_str());
        imports.append("';\n");
        routes.append("        <Route path=\"");
        routes.append(entries[i].0.as_str());
        routes.append("\" element={<");
        routes.append(name.as_str());
        routes.append(" />} />\n");
        if i + 1 < entries.len() {
            routes.append("\n");
        }
        i = i + 1;
    }
    (imports, routes)
}

} // verus!
