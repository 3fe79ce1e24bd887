//! Spec-level text of everything the generators emit. Each executable
//! generator in `codegen` promises that its output equals the corresponding
//! function here, so these definitions are the authoritative statement of
//! the lowering.

use vstd::prelude::*;

use crate::css_processing::default_theme_text;
use crate::model::{
    AccordionElement, Document, Page, AccordionItem, AlertElement, AvatarElement, BadgeElement, BreadcrumbElement,
    BreadcrumbItem, ButtonElement, CaptchaConfig, CaptchaProvider, CardElement, CheckboxElement,
    ChipInputElement, ColorPickerElement, ContainerElement, CopyButtonElement, CounterElement,
    DateInputElement, DateTimeInputElement, DialogElement, Element, EmailElement, FieldElement,
    FieldsetElement, FileUploadElement, FormElement, HeadingElement, ImageElement, InputElement,
    Layout, LayoutElement, LayoutType, ListElement, ListItem, NavElement, NavLink,
    NavigationMenuElement, PageData, PaginationElement, PopoverElement, ProgressElement,
    RadioGroupElement, RadioOption, SearchInputElement, SelectElement, SelectOption, SliderElement,
    SpacerElement, SpinnerElement, StateDefinition, StateValue, TabItem, TabsElement, TagElement,
    TextElement, TextareaElement, TimeInputElement, ToggleElement, TooltipElement, UrlElement,
    ValidationRule,
};
use crate::text::{bool_text, dec_text, escape_backslashes, int_text, lower_char, upper_char};

verus! {

/// Nesting deeper than this keeps the same indentation; it guards the
/// indentation counter against overflow on absurdly deep trees.
pub const MAX_INDENT: usize = 1048576;

/// A word boundary for the identifier casing transforms.
pub open spec fn is_delim(c: char) -> bool {
    c == '_' || c == '-' || c == ' '
}

/// Case transform shared by `pascal_case` and `camel_case`: delimiters are
/// dropped, and a character right after a delimiter (or the very first one,
/// when `capitalize` starts true) is shifted to upper case.
pub open spec fn case_shift(s: Seq<char>, capitalize: bool) -> Seq<char>
    decreases s.len(),
{
    if s.len() == 0 {
        Seq::empty()
    } else if is_delim(s[0]) {
        case_shift(s.drop_first(), true)
    } else if capitalize {
        seq![upper_char(s[0])] + case_shift(s.drop_first(), false)
    } else {
        seq![s[0]] + case_shift(s.drop_first(), false)
    }
}

pub open spec fn pascal_case(s: Seq<char>) -> Seq<char> {
    case_shift(s, true)
}

pub open spec fn camel_case(s: Seq<char>) -> Seq<char> {
    case_shift(s, false)
}

/// The mutator identifier derived from a binding name.
pub open spec fn setter_name(s: Seq<char>) -> Seq<char> {
    "set"@ + pascal_case(s)
}

/// Space-joined utility class list.
pub open spec fn style_text(styles: Seq<Seq<char>>) -> Seq<char>
    decreases styles.len(),
{
    if styles.len() == 0 {
        Seq::empty()
    } else if styles.len() == 1 {
        styles[0]
    } else {
        style_text(styles.drop_last()) + " "@ + styles.last()
    }
}

/// Two spaces per indentation level.
pub open spec fn indent_text(n: nat) -> Seq<char>
    decreases n,
{
    if n == 0 {
        Seq::empty()
    } else {
        indent_text((n - 1) as nat) + "  "@
    }
}

/// The indentation level `k` steps deeper, saturating at `MAX_INDENT`.
pub open spec fn bump_indent(n: nat, k: nat) -> nat {
    if n + k <= MAX_INDENT as nat {
        n + k
    } else {
        n
    }
}

pub open spec fn next_indent(n: nat) -> nat {
    bump_indent(n, 1)
}

/// ` className="..."` with the given classes, or nothing when there are none.
pub open spec fn class_attr(cls: Seq<char>) -> Seq<char> {
    if cls.len() == 0 {
        Seq::empty()
    } else {
        " className=\""@ + cls + "\""@
    }
}

/// ` className="Base"` or ` className="Base ..."`: a fixed structural class,
/// then the element's own classes when it has any.
pub open spec fn based_class_attr(base: Seq<char>, cls: Seq<char>) -> Seq<char> {
    if cls.len() == 0 {
        " className=\""@ + base + "\""@
    } else {
        " className=\""@ + base + " "@ + cls + "\""@
    }
}

pub open spec fn opt_view(s: Option<String>) -> Option<Seq<char>> {
    match s {
        Some(v) => Some(v@),
        None => None,
    }
}

/// ` name="value"`-shaped attribute for an optional field.
pub open spec fn opt_quoted_attr(pre: Seq<char>, v: Option<Seq<char>>) -> Seq<char> {
    match v {
        Some(s) => pre + s + "\""@,
        None => Seq::empty(),
    }
}

pub open spec fn heading_text(h: HeadingElement, indent: nat) -> Seq<char> {
    let cls = style_text(h.style.deep_view());
    if cls.len() == 0 {
        indent_text(indent) + "<h1>"@ + h.content@ + "</h1>"@
    } else {
        indent_text(indent) + "<h1 className=\""@ + cls + "\">"@ + h.content@ + "</h1>"@
    }
}

pub open spec fn text_text(t: TextElement, indent: nat) -> Seq<char> {
    let cls = style_text(t.style.deep_view());
    if cls.len() == 0 {
        indent_text(indent) + "<p>"@ + t.content@ + "</p>"@
    } else {
        indent_text(indent) + "<p className=\""@ + cls + "\">"@ + t.content@ + "</p>"@
    }
}

pub open spec fn button_click_attr(on_click: Option<Seq<char>>) -> Seq<char> {
    match on_click {
        Some(h) => if h.len() > 0 && h[0] == '/' {
            " onClick={() => window.location.href = \""@ + h + "\"}"@
        } else {
            " onClick={() => "@ + h + "}"@
        },
        None => Seq::empty(),
    }
}

pub open spec fn button_text(b: ButtonElement, indent: nat) -> Seq<char> {
    let cls = style_text(b.style.deep_view());
    indent_text(indent) + "<Button"@ + based_class_attr("Button"@, cls) + button_click_attr(
        opt_view(b.onClick),
    ) + ">"@ + b.content@ + "</Button>"@
}

pub open spec fn spacer_text(s: SpacerElement, indent: nat) -> Seq<char> {
    indent_text(indent) + "<Separator />"@
}

pub open spec fn image_text(img: ImageElement, indent: nat) -> Seq<char> {
    let cls = style_text(img.style.deep_view());
    indent_text(indent) + "<img"@ + class_attr(cls) + opt_quoted_attr(
        " src=\""@,
        opt_view(img.src),
    ) + opt_quoted_attr(" alt=\""@, opt_view(img.alt)) + " />"@
}

/// ` value={name} onChange={(e) => setName(e.target.value)}` for a bound
/// text-valued control.
pub open spec fn bind_string_attrs(bind: Seq<char>) -> Seq<char> {
    " value={"@ + camel_case(bind) + "}"@ + " onChange={(e) => "@ + setter_name(bind)
        + "(e.target.value)}"@
}

pub open spec fn input_text(inp: InputElement, indent: nat) -> Seq<char> {
    let cls = style_text(inp.style.deep_view());
    let bind_part = match inp.bind {
        Some(b) => bind_string_attrs(b@),
        None => match inp.value {
            Some(v) => " value=\""@ + v@ + "\""@,
            None => Seq::empty(),
        },
    };
    let change_part = match inp.onChange {
        Some(h) => " onChange={(e) => "@ + h@ + "}"@,
        None => Seq::empty(),
    };
    indent_text(indent) + "<input"@ + class_attr(cls) + opt_quoted_attr(
        " placeholder=\""@,
        opt_view(inp.placeholder),
    ) + bind_part + change_part + " />"@
}

pub open spec fn badge_variant_class(variant: Option<Seq<char>>) -> Seq<char> {
    match variant {
        Some(v) => if v == "success"@ {
            " Badge-success"@
        } else if v == "warning"@ {
            " Badge-warning"@
        } else if v == "error"@ {
            " Badge-error"@
        } else if v == "info"@ {
            " Badge-info"@
        } else {
            " Badge-default"@
        },
        None => " Badge-default"@,
    }
}

pub open spec fn badge_text(b: BadgeElement, indent: nat) -> Seq<char> {
    let cls = style_text(b.style.deep_view());
    indent_text(indent) + "<span"@ + based_class_attr("Badge"@, cls) + badge_variant_class(
        opt_view(b.variant),
    ) + ">"@ + b.content@ + "</span>"@
}

pub open spec fn tag_close_button(t: TagElement) -> Seq<char> {
    if t.removable == Some(true) {
        let handler = match t.onRemove {
            Some(h) => "onClick={() => "@ + h@ + "}"@,
            None => Seq::empty(),
        };
        "<button className=\"Tag-close\" "@ + handler + "></button>"@
    } else {
        Seq::empty()
    }
}

pub open spec fn tag_text(t: TagElement, indent: nat) -> Seq<char> {
    let cls = style_text(t.style.deep_view());
    let props = if cls.len() == 0 {
        "className=\"Tag\""@
    } else {
        "className=\"Tag "@ + cls + "\""@
    };
    indent_text(indent) + "<span "@ + props + ">"@ + t.content@ + " "@ + tag_close_button(t)
        + "</span>"@
}

pub open spec fn alert_variant_class(t: Option<Seq<char>>) -> Seq<char> {
    match t {
        Some(v) => if v == "success"@ {
            " Alert-success"@
        } else if v == "warning"@ {
            " Alert-warning"@
        } else if v == "error"@ {
            " Alert-error"@
        } else {
            " Alert-info"@
        },
        None => " Alert-info"@,
    }
}

pub open spec fn alert_dismiss_button(a: AlertElement) -> Seq<char> {
    if a.dismissible == Some(true) {
        let handler = match a.onDismiss {
            Some(h) => "onClick={() => "@ + h@ + "}"@,
            None => Seq::empty(),
        };
        "<button className=\"Alert-dismiss\" "@ + handler + " />"@
    } else {
        Seq::empty()
    }
}

pub open spec fn alert_text(a: AlertElement, indent: nat) -> Seq<char> {
    let cls = style_text(a.style.deep_view());
    let base = if cls.len() == 0 {
        "Alert"@ + alert_variant_class(opt_view(a.alertType))
    } else {
        "Alert"@ + alert_variant_class(opt_view(a.alertType)) + " "@ + cls
    };
    indent_text(indent) + "<div className=\""@ + base + "\">"@ + alert_dismiss_button(a) + "<p>"@
        + a.content@ + "</p></div>"@
}

pub open spec fn spinner_size_class(size: Option<Seq<char>>) -> Seq<char> {
    match size {
        Some(v) => if v == "sm"@ {
            " Spinner-sm"@
        } else if v == "lg"@ {
            " Spinner-lg"@
        } else {
            Seq::empty()
        },
        None => Seq::empty(),
    }
}

pub open spec fn spinner_text(s: SpinnerElement, indent: nat) -> Seq<char> {
    let cls = style_text(s.style.deep_view());
    let label = match s.label {
        Some(l) => "<span className=\"Spinner-label\">"@ + l@ + "</span>"@,
        None => Seq::empty(),
    };
    let container = if cls.len() == 0 {
        "Spinner"@
    } else {
        "Spinner "@ + cls
    };
    let trailer = match s.label {
        Some(_) => Seq::<char>::empty(),
        None => "<span className=\"sr-only\">Loading...</span>"@,
    };
    indent_text(indent) + "<div className=\""@ + container + "\">"@ + label
        + "<div className=\"Spinner-spinner"@ + spinner_size_class(opt_view(s.size)) + "\" />"@
        + trailer + "</div>"@
}

pub open spec fn field_text(f: FieldElement, indent: nat) -> Seq<char> {
    let cls = style_text(f.style.deep_view());
    let wrapper = based_class_attr("Field-root"@, cls);
    let label_line = match f.label {
        Some(l) => indent_text(indent) + "  <Field.Label className=\"Field-label\">"@ + l@
            + "</Field.Label>\n"@,
        None => Seq::empty(),
    };
    let placeholder = match f.placeholder {
        Some(p) => " placeholder=\""@ + p@ + "\""@,
        None => Seq::empty(),
    };
    indent_text(indent) + "<Field.Root name=\""@ + f.name@ + "\""@ + wrapper + ">\n"@ + label_line
        + indent_text(indent) + "  <Field.Control"@ + placeholder
        + " className=\"Field-control\" />\n"@ + indent_text(indent)
        + "  <Field.Error className=\"Field-error\" />\n"@ + indent_text(indent)
        + "</Field.Root>\n"@
}

pub open spec fn textarea_text(t: TextareaElement, indent: nat) -> Seq<char> {
    let cls = style_text(t.style.deep_view());
    let rows = match t.rows {
        Some(n) => " rows={"@ + dec_text(n as nat) + "}"@,
        None => Seq::empty(),
    };
    let bind_part = match t.bind {
        Some(b) => bind_string_attrs(b@),
        None => Seq::empty(),
    };
    let change_part = match t.onChange {
        Some(h) => " onChange={(e) => "@ + h@ + "}"@,
        None => Seq::empty(),
    };
    indent_text(indent) + "<textarea"@ + class_attr(cls) + opt_quoted_attr(
        " placeholder=\""@,
        opt_view(t.placeholder),
    ) + rows + bind_part + change_part + " />"@
}

pub open spec fn checkbox_text(c: CheckboxElement, indent: nat) -> Seq<char> {
    let cls = style_text(c.style.deep_view());
    let wrapper = if cls.len() == 0 {
        Seq::<char>::empty()
    } else {
        " "@ + cls
    };
    let checked = match c.bind {
        Some(b) => " checked={"@ + camel_case(b@) + "}"@,
        None => Seq::empty(),
    };
    let onchange = match c.bind {
        Some(b) => " onCheckedChange={(checked) => "@ + setter_name(b@) + "(checked)}"@,
        None => Seq::empty(),
    };
    let label = match c.label {
        Some(l) => "<span>"@ + l@ + "</span>"@,
        None => Seq::empty(),
    };
    indent_text(indent) + "<label className=\"flex items-center gap-2 cursor-pointer"@ + wrapper
        + "\">"@ + indent_text(indent) + "<Checkbox.Root className=\"Checkbox-root\""@ + checked
        + " "@ + onchange + ">"@ + indent_text(indent)
        + "  <Checkbox.Indicator className=\"Checkbox-indicator\" />"@ + indent_text(indent)
        + "</Checkbox.Root>"@ + label + "</label>"@
}

pub open spec fn slider_text(s: SliderElement, indent: nat) -> Seq<char> {
    let cls = style_text(s.style.deep_view());
    let min = match s.min {
        Some(n) => " min=\""@ + int_text(n as int) + "\""@,
        None => Seq::empty(),
    };
    let max = match s.max {
        Some(n) => " max=\""@ + int_text(n as int) + "\""@,
        None => Seq::empty(),
    };
    let step = match s.step {
        Some(n) => " step=\""@ + int_text(n as int) + "\""@,
        None => Seq::empty(),
    };
    let bind_part = match s.bind {
        Some(b) => " value={"@ + camel_case(b@) + "}"@ + " onChange={(e) => "@ + setter_name(b@)
            + "(Number(e.target.value))}"@,
        None => Seq::empty(),
    };
    let change_part = match s.onChange {
        Some(h) => " onChange={(e) => "@ + h@ + "}"@,
        None => Seq::empty(),
    };
    let props = " type=\"range\""@ + class_attr(cls) + min + max + step + bind_part + change_part;
    match s.label {
        Some(l) => indent_text(indent) + "<label className=\"flex flex-col gap-1\"><span>"@ + l@
            + "</span><input"@ + props + " /></label>"@,
        None => indent_text(indent) + "<input"@ + props + " />"@,
    }
}

pub open spec fn date_input_text(d: DateInputElement, indent: nat) -> Seq<char> {
    let cls = style_text(d.style.deep_view());
    let bind_part = match d.bind {
        Some(b) => bind_string_attrs(b@),
        None => Seq::empty(),
    };
    let change_part = match d.onChange {
        Some(h) => " onChange={(e) => "@ + h@ + "}"@,
        None => Seq::empty(),
    };
    indent_text(indent) + "<input type=\"date\""@ + class_attr(cls) + opt_quoted_attr(
        " min=\""@,
        opt_view(d.min),
    ) + opt_quoted_attr(" max=\""@, opt_view(d.max)) + opt_quoted_attr(
        " placeholder=\""@,
        opt_view(d.placeholder),
    ) + bind_part + change_part + " />"@
}

pub open spec fn time_input_text(t: TimeInputElement, indent: nat) -> Seq<char> {
    let cls = style_text(t.style.deep_view());
    let step = match t.step {
        Some(n) => " step=\""@ + dec_text(n as nat) + "\""@,
        None => Seq::empty(),
    };
    let bind_part = match t.bind {
        Some(b) => bind_string_attrs(b@),
        None => Seq::empty(),
    };
    indent_text(indent) + "<input type=\"time\""@ + class_attr(cls) + opt_quoted_attr(
        " min=\""@,
        opt_view(t.min),
    ) + opt_quoted_attr(" max=\""@, opt_view(t.max)) + step + bind_part + " />"@
}

pub open spec fn datetime_input_text(d: DateTimeInputElement, indent: nat) -> Seq<char> {
    let cls = style_text(d.style.deep_view());
    let bind_part = match d.bind {
        Some(b) => bind_string_attrs(b@),
        None => Seq::empty(),
    };
    indent_text(indent) + "<input type=\"datetime-local\""@ + class_attr(cls) + opt_quoted_attr(
        " min=\""@,
        opt_view(d.min),
    ) + opt_quoted_attr(" max=\""@, opt_view(d.max)) + bind_part + " />"@
}

pub open spec fn color_picker_text(c: ColorPickerElement, indent: nat) -> Seq<char> {
    let cls = style_text(c.style.deep_view());
    let bind_part = match c.bind {
        Some(b) => bind_string_attrs(b@),
        None => Seq::empty(),
    };
    let change_part = match c.onChange {
        Some(h) => " onChange={(e) => "@ + h@ + "}"@,
        None => Seq::empty(),
    };
    indent_text(indent) + "<input type=\"color\""@ + class_attr(cls) + bind_part + change_part
        + " />"@
}

pub open spec fn file_upload_text(f: FileUploadElement, indent: nat) -> Seq<char> {
    let cls = style_text(f.style.deep_view());
    let multiple = if f.multiple == Some(true) {
        " multiple"@
    } else {
        Seq::<char>::empty()
    };
    indent_text(indent) + "<input type=\"file\""@ + class_attr(cls) + opt_quoted_attr(
        " accept=\""@,
        opt_view(f.accept),
    ) + opt_quoted_attr(" data-max-size=\""@, opt_view(f.maxSize)) + multiple + " />"@
}

pub open spec fn progress_value_expr(p: ProgressElement) -> Seq<char> {
    match p.bind {
        Some(b) => camel_case(b@),
        None => match p.value {
            Some(v) => v@,
            None => "0"@,
        },
    }
}

pub open spec fn progress_text(p: ProgressElement, indent: nat) -> Seq<char> {
    let cls = style_text(p.style.deep_view());
    let max = match p.max {
        Some(n) => " aria-valuemax=\""@ + dec_text(n as nat) + "\""@,
        None => Seq::empty(),
    };
    let value = progress_value_expr(p);
    let props = " role=\"progressbar\""@ + class_attr(cls) + max + " aria-valuenow={"@ + value
        + "}"@ + " style={{width: `${"@ + value + "}%`}}"@;
    let label = if p.showLabel == Some(true) {
        "<span className=\"text-sm ml-2\">"@ + value + "%</span>"@
    } else {
        Seq::<char>::empty()
    };
    indent_text(indent) + "<div"@ + props + " />"@ + label
}

pub open spec fn toggle_text(t: ToggleElement, indent: nat) -> Seq<char> {
    let checked = match t.bind {
        Some(b) => " checked={"@ + camel_case(b@) + "}"@,
        None => Seq::empty(),
    };
    let onchange = match t.bind {
        Some(b) => "onCheckedChange={(checked) => "@ + setter_name(b@) + "(checked)}"@,
        None => Seq::empty(),
    };
    let label = match t.label {
        Some(l) => "<span className=\"font-medium\">"@ + l@ + "</span>"@,
        None => Seq::empty(),
    };
    indent_text(indent) + "<label className=\"inline-flex items-center cursor-pointer gap-3\">"@
        + label + "<Switch.Root className=\"Switch-root\" id=\"toggle\""@ + checked + " "@
        + onchange + ">"@ + indent_text(indent) + "  <Switch.Thumb className=\"Switch-thumb\" />"@
        + indent_text(indent) + "</Switch.Root></label>"@
}

pub open spec fn counter_text(c: CounterElement, indent: nat) -> Seq<char> {
    let cls = style_text(c.style.deep_view());
    let min = match c.min {
        Some(n) => " min={"@ + int_text(n as int) + "}"@,
        None => Seq::empty(),
    };
    let max = match c.max {
        Some(n) => " max={"@ + int_text(n as int) + "}"@,
        None => Seq::empty(),
    };
    let step = match c.step {
        Some(n) => " step={"@ + int_text(n as int) + "}"@,
        None => Seq::empty(),
    };
    let value = match c.bind {
        Some(b) => " value={"@ + camel_case(b@) + "}"@,
        None => Seq::empty(),
    };
    let onvaluechange = match c.bind {
        Some(b) => " onValueChange={(value) => "@ + setter_name(b@) + "(value)}"@,
        None => Seq::empty(),
    };
    let wrapper = if cls.len() == 0 {
        "NumberField-root"@
    } else {
        "NumberField-root "@ + cls
    };
    let children = indent_text(indent) + "<NumberField.Decrement className=\"NumberField-decrement\">\n"@
        + indent_text(indent) + "    <span>-</span>\n"@ + indent_text(indent)
        + "  </NumberField.Decrement>\n"@ + indent_text(indent)
        + "  <NumberField.Input className=\"NumberField-input\" />\n"@ + indent_text(indent)
        + "  <NumberField.Increment className=\"NumberField-increment\">\n"@ + indent_text(indent)
        + "    <span>+</span>\n"@ + indent_text(indent) + "  </NumberField.Increment>"@;
    indent_text(indent) + "<NumberField.Root className=\""@ + wrapper + "\""@ + value + min + max
        + step + onvaluechange + ">\n"@ + children + "\n"@ + indent_text(indent)
        + "</NumberField.Root>"@
}

pub open spec fn search_input_text(s: SearchInputElement, indent: nat) -> Seq<char> {
    let cls = style_text(s.style.deep_view());
    let bind_part = match s.bind {
        Some(b) => " value={"@ + camel_case(b@) + "}"@ + " onChange={(e) => "@ + setter_name(b@)
            + "(e.target.value)}"@,
        None => Seq::empty(),
    };
    let clear = if s.clearable == Some(true) {
        " onClear"@
    } else {
        Seq::<char>::empty()
    };
    let search = match s.onSearch {
        Some(h) => " onSearch={() => "@ + h@ + "}"@,
        None => Seq::empty(),
    };
    let props = "type=\"search\""@ + class_attr(cls) + opt_quoted_attr(
        " placeholder=\""@,
        opt_view(s.placeholder),
    ) + bind_part + clear + search;
    let span = if cls.len() == 0 {
        Seq::<char>::empty()
    } else {
        "<span className=\""@ + cls + "\"></span>"@
    };
    indent_text(indent) + "<div>"@ + span + "<input "@ + props + " /></div>"@
}

pub open spec fn copy_button_text(c: CopyButtonElement, indent: nat) -> Seq<char> {
    let cls = style_text(c.style.deep_view());
    let content = match c.content {
        Some(s) => "\""@ + s@ + "\""@,
        None => match c.text {
            Some(s) => "\""@ + s@ + "\""@,
            None => "''"@,
        },
    };
    let handler = match c.onCopy {
        Some(h) => "onClick={() => navigator.clipboard.writeText("@ + content + ") && "@ + h@
            + "}"@,
        None => "onClick={() => navigator.clipboard.writeText("@ + content + ")}"@,
    };
    let button_text = match c.text {
        Some(s) => s@,
        None => "Copy"@,
    };
    indent_text(indent) + "<button "@ + handler + " className=\"inline-flex items-center "@ + cls
        + "\">"@ + button_text + "</button>"@
}

/// Number of pages a pagination control spans: the total over the page size,
/// rounded up; zero pages of zero items; saturated when the page size is zero.
pub open spec fn page_count(total: nat, per_page: nat) -> nat {
    if per_page == 0 {
        if total == 0 {
            0
        } else {
            0xffff_ffff
        }
    } else {
        ((total + per_page - 1) / (per_page as int)) as nat
    }
}

pub open spec fn pagination_pages_text(p: PaginationElement) -> Seq<char> {
    let total = match p.total {
        Some(n) => n as nat,
        None => 100 as nat,
    };
    let per_page = match p.perPage {
        Some(n) => n as nat,
        None => 10 as nat,
    };
    dec_text(page_count(total, per_page))
}

pub open spec fn pagination_prev_text(p: PaginationElement) -> Seq<char> {
    match p.bind {
        Some(b) => "onClick={() => "@ + camel_case(b@) + " > 1 && "@ + setter_name(b@) + "("@
            + camel_case(b@) + " - 1)}"@,
        None => "onClick={{() => {}}}"@,
    }
}

pub open spec fn pagination_next_text(p: PaginationElement) -> Seq<char> {
    match p.bind {
        Some(b) => "onClick={() => "@ + camel_case(b@) + " < "@ + pagination_pages_text(p) + " && "@
            + setter_name(b@) + "("@ + camel_case(b@) + " + 1)}"@,
        None => "onClick={{() => {}}}"@,
    }
}

pub open spec fn pagination_current_text(p: PaginationElement) -> Seq<char> {
    match p.bind {
        Some(b) => "<span className=\"px-4 py-2 border bg-blue-50 text-blue-600 font-medium\">Page { "@
            + camel_case(b@) + " } of "@ + pagination_pages_text(p) + "</span>"@,
        None => "<span className=\"px-4 py-2 border bg-blue-50 text-blue-600 font-medium\">Page 1 of "@
            + pagination_pages_text(p) + "</span>"@,
    }
}

pub open spec fn pagination_text(p: PaginationElement, indent: nat) -> Seq<char> {
    let cls = style_text(p.style.deep_view());
    indent_text(indent) + "<div className=\"flex items-center justify-center space-x-2 "@ + cls
        + "\">"@ + indent_text(indent) + "<button "@ + pagination_prev_text(p)
        + " className=\"px-3 py-1 border rounded hover:bg-gray-100\">Previous</button>"@
        + pagination_current_text(p) + "<button "@ + pagination_next_text(p)
        + " className=\"px-3 py-1 border rounded hover:bg-gray-100\">Next</button></div>"@
}

/// Space-joined list of text parts.
pub open spec fn joined_spaces(parts: Seq<Seq<char>>) -> Seq<char>
    decreases parts.len(),
{
    if parts.len() == 0 {
        Seq::empty()
    } else if parts.len() == 1 {
        parts[0]
    } else {
        joined_spaces(parts.drop_last()) + " "@ + parts.last()
    }
}

/// The class tokens of a layout wrapper: a token for the layout kind, the
/// column count for a grid, then the layout's own utility classes.
pub open spec fn layout_classes(l: Layout) -> Seq<Seq<char>> {
    let base = match l.layout_type {
        LayoutType::Column => seq!["flex flex-col"@],
        LayoutType::Row => seq!["flex flex-row"@],
        LayoutType::Stack => seq!["relative"@],
        LayoutType::Grid => match l.columns {
            Some(n) => seq!["grid"@, "grid-cols-"@ + dec_text(n as nat)],
            None => seq!["grid"@],
        },
    };
    base + l.properties.deep_view()
}

pub open spec fn layout_props_text(l: Layout) -> Seq<char> {
    let classes = layout_classes(l);
    if classes.len() == 0 {
        Seq::empty()
    } else {
        " className=\""@ + joined_spaces(classes) + "\""@
    }
}

pub open spec fn select_option_text(opt: SelectOption, indent: nat) -> Seq<char> {
    let label = match opt.label {
        Some(l) => l@,
        None => opt.value@,
    };
    indent_text(indent) + "        <Select.Item className=\"Select-item\" value=\""@ + opt.value@
        + "\">\n"@ + indent_text(indent) + "          <Select.ItemText>"@ + label
        + "</Select.ItemText>\n"@ + indent_text(indent) + "        </Select.Item>\n"@
}

pub open spec fn select_options_text(opts: Seq<SelectOption>, indent: nat, i: nat) -> Seq<char>
    decreases opts.len() - i,
{
    if i >= opts.len() {
        Seq::empty()
    } else {
        select_option_text(opts[i as int], indent) + select_options_text(opts, indent, i + 1)
    }
}

pub open spec fn select_text(s: SelectElement, indent: nat) -> Seq<char> {
    let cls = style_text(s.style.deep_view());
    let value = match s.bind {
        Some(b) => " value={"@ + camel_case(b@) + "}"@,
        None => Seq::empty(),
    };
    let onvaluechange = match s.bind {
        Some(b) => " onValueChange={(value) => "@ + setter_name(b@) + "(value)}"@,
        None => Seq::empty(),
    };
    let trigger = based_class_attr("Select-trigger"@, cls);
    indent_text(indent) + "<Select.Root"@ + value + onvaluechange + ">\n"@ + indent_text(indent)
        + "  <Select.Trigger"@ + trigger + ">\n"@ + indent_text(indent)
        + "    <Select.Value />\n"@ + indent_text(indent) + "    <Select.Icon />\n"@ + indent_text(
        indent,
    ) + "  </Select.Trigger>\n"@ + indent_text(indent) + "  <Select.Portal>\n"@ + indent_text(
        indent,
    ) + "    <Select.Positioner sideOffset={8}>\n"@ + indent_text(indent)
        + "      <Select.Popup className=\"Select-popup\">\n"@ + select_options_text(
        s.options@,
        indent,
        0,
    ) + indent_text(indent) + "      </Select.Popup>\n"@ + indent_text(indent)
        + "    </Select.Positioner>\n"@ + indent_text(indent) + "  </Select.Portal>\n"@
        + indent_text(indent) + "</Select.Root>"@
}

pub open spec fn radio_option_text(opt: RadioOption, indent: nat) -> Seq<char> {
    let label = match opt.label {
        Some(l) => l@,
        None => opt.value@,
    };
    indent_text(indent) + "  <label className=\"flex items-center gap-2 cursor-pointer py-1\">\n"@
        + indent_text(indent) + "    <Radio.Root className=\"Radio-root\" value=\""@ + opt.value@
        + "\">\n"@ + indent_text(indent) + "      <Radio.Indicator className=\"Radio-indicator\" />\n"@
        + indent_text(indent) + "    </Radio.Root>\n"@ + indent_text(indent) + "    <span>"@
        + label + "</span>\n"@ + indent_text(indent) + "  </label>\n"@
}

pub open spec fn radio_options_text(opts: Seq<RadioOption>, indent: nat, i: nat) -> Seq<char>
    decreases opts.len() - i,
{
    if i >= opts.len() {
        Seq::empty()
    } else {
        radio_option_text(opts[i as int], indent) + radio_options_text(opts, indent, i + 1)
    }
}

pub open spec fn radio_group_text(r: RadioGroupElement, indent: nat) -> Seq<char> {
    let cls = style_text(r.style.deep_view());
    let default_value = if r.options@.len() > 0 {
        " defaultValue=\""@ + r.options@[0].value@ + "\""@
    } else {
        Seq::<char>::empty()
    };
    let wrapper = based_class_attr("RadioGroup"@, cls);
    let label_line = match r.label {
        Some(l) => indent_text(indent) + "  <p>"@ + l@ + "</p>\n"@,
        None => Seq::empty(),
    };
    indent_text(indent) + "<RadioGroup"@ + wrapper + default_value + ">\n"@ + label_line
        + radio_options_text(r.options@, indent, 0) + indent_text(indent) + "</RadioGroup>\n"@
}

pub open spec fn tab_text(tabs: TabsElement, tab: TabItem, indent: nat) -> Seq<char> {
    let label = match tab.label {
        Some(l) => l@,
        None => tab.value@,
    };
    let bind_props = match tabs.bind {
        Some(b) => " checked={"@ + camel_case(b@) + " === \""@ + tab.value@ + "\"}"@
            + " onChange={() => "@ + setter_name(b@) + "(\""@ + tab.value@ + "\")}"@,
        None => Seq::empty(),
    };
    let props = "type=\"radio\" name=\"tabs\" value=\""@ + tab.value@
        + "\" className=\"sr-only\""@ + bind_props;
    indent_text(indent)
        + "      <label className=\"cursor-pointer whitespace-nowrap py-4 px-1 border-b-2\">"@
        + label + "<input "@ + props + " /></label>\n"@
}

pub open spec fn tabs_items_text(tabs: TabsElement, opts: Seq<TabItem>, indent: nat, i: nat) -> Seq<
    char,
>
    decreases opts.len() - i,
{
    if i >= opts.len() {
        Seq::empty()
    } else {
        tab_text(tabs, opts[i as int], indent) + tabs_items_text(tabs, opts, indent, i + 1)
    }
}

pub open spec fn tabs_text(t: TabsElement, indent: nat) -> Seq<char> {
    let cls = style_text(t.style.deep_view());
    let label_line = match t.label {
        Some(l) => indent_text(indent) + "  <p>"@ + l@ + "</p>\n"@,
        None => Seq::empty(),
    };
    indent_text(indent) + "<div"@ + class_attr(cls) + ">\n"@ + label_line + indent_text(indent)
        + "  <div>\n"@ + indent_text(indent) + "    <nav>\n"@ + tabs_items_text(
        t,
        t.options@,
        indent,
        0,
    ) + indent_text(indent) + "    </nav>\n"@ + indent_text(indent) + "  </div>\n"@ + indent_text(
        indent,
    ) + "</div>\n"@
}

pub open spec fn accordion_item_text(item: AccordionItem, index: nat, indent: nat) -> Seq<char> {
    indent_text(indent) + "  <Accordion.Item value=\"item-"@ + dec_text(index) + "\">\n"@
        + indent_text(indent) + "    <Accordion.Header>\n"@ + indent_text(indent)
        + "      <Accordion.Trigger>\n"@ + indent_text(indent) + "        "@ + item.title@ + "\n"@
        + indent_text(indent) + "      </Accordion.Trigger>\n"@ + indent_text(indent)
        + "    </Accordion.Header>\n"@ + indent_text(indent) + "      <Accordion.Panel>\n"@
        + indent_text(indent) + "        "@ + item.content@ + "\n"@ + indent_text(indent)
        + "      </Accordion.Panel>\n"@ + indent_text(indent) + "  </Accordion.Item>\n"@
}

pub open spec fn accordion_items_text(items: Seq<AccordionItem>, indent: nat, i: nat) -> Seq<char>
    decreases items.len() - i,
{
    if i >= items.len() {
        Seq::empty()
    } else {
        accordion_item_text(items[i as int], i, indent) + accordion_items_text(
            items,
            indent,
            i + 1,
        )
    }
}

pub open spec fn accordion_text(a: AccordionElement, indent: nat) -> Seq<char> {
    let multiple = if a.multiple == Some(true) {
        " multiple"@
    } else {
        Seq::<char>::empty()
    };
    indent_text(indent) + "<Accordion.Root"@ + multiple + ">\n"@ + accordion_items_text(
        a.items@,
        indent,
        0,
    ) + indent_text(indent) + "</Accordion.Root>\n"@
}

pub open spec fn tooltip_text(t: TooltipElement, indent: nat) -> Seq<char> {
    let trigger = match t.trigger {
        Some(tr) => indent_text(indent) + "    <Tooltip.Trigger>\n"@ + indent_text(indent)
            + "      "@ + tr@ + "\n"@ + indent_text(indent) + "    </Tooltip.Trigger>\n"@,
        None => Seq::empty(),
    };
    indent_text(indent) + "<Tooltip.Provider>\n"@ + indent_text(indent) + "  <Tooltip.Root>\n"@
        + trigger + indent_text(indent) + "    <Tooltip.Portal>\n"@ + indent_text(indent)
        + "      <Tooltip.Positioner sideOffset={8}>\n"@ + indent_text(indent)
        + "        <Tooltip.Popup className=\"Tooltip-popup\">\n"@ + indent_text(indent)
        + "          "@ + t.content@ + "\n"@ + indent_text(indent) + "        </Tooltip.Popup>\n"@
        + indent_text(indent) + "      </Tooltip.Positioner>\n"@ + indent_text(indent)
        + "    </Tooltip.Portal>\n"@ + indent_text(indent) + "  </Tooltip.Root>\n"@ + indent_text(
        indent,
    ) + "</Tooltip.Provider>\n"@
}

pub open spec fn popover_text(p: PopoverElement, indent: nat) -> Seq<char> {
    let trigger = match p.trigger {
        Some(tr) => indent_text(indent) + "  <Popover.Trigger>\n"@ + indent_text(indent) + "    "@
            + tr@ + "\n"@ + indent_text(indent) + "  </Popover.Trigger>\n"@,
        None => Seq::empty(),
    };
    let title = match p.title {
        Some(t) => indent_text(indent) + "        <Popover.Title className=\"Popover-title\">"@
            + t@ + "</Popover.Title>\n"@,
        None => Seq::empty(),
    };
    indent_text(indent) + "<Popover.Root>\n"@ + trigger + indent_text(indent)
        + "  <Popover.Portal>\n"@ + indent_text(indent)
        + "    <Popover.Positioner sideOffset={8}>\n"@ + indent_text(indent)
        + "      <Popover.Popup className=\"Popover-popup\">\n"@ + title + indent_text(indent)
        + "        "@ + p.content@ + "\n"@ + indent_text(indent) + "      </Popover.Popup>\n"@
        + indent_text(indent) + "    </Popover.Positioner>\n"@ + indent_text(indent)
        + "  </Popover.Portal>\n"@ + indent_text(indent) + "</Popover.Root>\n"@
}

pub open spec fn breadcrumb_item_text(
    item: BreadcrumbItem,
    is_last: bool,
    indent: nat,
) -> Seq<char> {
    let separator = if is_last {
        Seq::<char>::empty()
    } else {
        "<span className=\"mx-2 text-gray-400\">/</span>"@
    };
    let content = match item.href {
        Some(h) => "<a href=\""@ + h@ + "\" className=\"text-blue-600 hover:underline\">"@
            + item.label@ + "</a>"@ + separator,
        None => "<span className=\"text-gray-600\">"@ + item.label@ + "</span>"@ + separator,
    };
    indent_text(indent) + "<span>"@ + content + "</span>\n"@
}

pub open spec fn breadcrumb_items_text(items: Seq<BreadcrumbItem>, indent: nat, i: nat) -> Seq<
    char,
>
    decreases items.len() - i,
{
    if i >= items.len() {
        Seq::empty()
    } else {
        breadcrumb_item_text(items[i as int], i + 1 >= items.len(), indent)
            + breadcrumb_items_text(items, indent, i + 1)
    }
}

pub open spec fn breadcrumb_text(b: BreadcrumbElement, indent: nat) -> Seq<char> {
    let cls = style_text(b.style.deep_view());
    indent_text(indent) + "<nav"@ + class_attr(cls) + " aria-label=\"Breadcrumb\"><ol className=\"flex items-center space-x-2\">"@
        + breadcrumb_items_text(b.items@, indent, 0) + "</ol></nav>"@
}

pub open spec fn avatar_size_classes(size: Option<Seq<char>>) -> Seq<char> {
    match size {
        Some(v) => if v == "sm"@ {
            "w-8 h-8 text-xs"@
        } else if v == "lg"@ {
            "w-16 h-16 text-lg"@
        } else {
            "w-10 h-10 text-sm"@
        },
        None => "w-10 h-10 text-sm"@,
    }
}

pub open spec fn avatar_image_text(a: AvatarElement) -> Seq<char> {
    match a.src {
        Some(s) => "<img src=\""@ + s@
            + "\" className=\"w-full h-full object-cover rounded-full\" />"@,
        None => {
            let fallback = match a.fallback {
                Some(f) => if f@.len() <= 2 {
                    f@
                } else {
                    f@.take(2)
                },
                None => "?"@,
            };
            "<span className=\"flex items-center justify-center w-full h-full rounded-full bg-gray-200 text-gray-600 font-medium\">"@
                + fallback + "</span>"@
        },
    }
}

pub open spec fn avatar_text(a: AvatarElement, indent: nat) -> Seq<char> {
    let name = match a.name {
        Some(n) => "<span className=\"ml-2 font-medium text-gray-700\">"@ + n@ + "</span>"@,
        None => Seq::empty(),
    };
    indent_text(indent) + "<div className=\"flex items-center "@ + style_text(a.style.deep_view())
        + "\">"@ + indent_text(indent) + "<div className=\""@ + avatar_size_classes(
        opt_view(a.size),
    ) + " rounded-full overflow-hidden bg-gray-100\">"@ + avatar_image_text(a) + "</div>"@ + name
        + "</div>"@
}

pub open spec fn chip_suggestion_text(sug: Seq<char>, bind_name: Seq<char>, setter: Seq<char>) -> Seq<
    char,
> {
    "<span key=\""@ + sug
        + "\" className=\"inline-block px-2 py-1 bg-gray-100 text-gray-700 text-xs rounded-full mr-2 mb-1 cursor-pointer hover:bg-gray-200\" style={"@
        + bind_name + ".includes(\""@ + sug + "\") ? { opacity: 0.5, pointerEvents: 'none' } : {}} onClick={() => { if (!"@
        + bind_name + ".includes(\""@ + sug + "\")) { "@ + setter + "([..."@ + bind_name + ", \""@
        + sug + "\"]); } }}>"@ + sug + "</span>"@
}

pub open spec fn chip_suggestions_text(
    sugs: Seq<Seq<char>>,
    bind_name: Seq<char>,
    setter: Seq<char>,
    i: nat,
) -> Seq<char>
    decreases sugs.len() - i,
{
    if i >= sugs.len() {
        Seq::empty()
    } else {
        chip_suggestion_text(sugs[i as int], bind_name, setter) + chip_suggestions_text(
            sugs,
            bind_name,
            setter,
            i + 1,
        )
    }
}

pub open spec fn chip_bind_name(c: ChipInputElement) -> Seq<char> {
    match c.bind {
        Some(b) => camel_case(b@),
        None => Seq::empty(),
    }
}

pub open spec fn chip_setter(c: ChipInputElement) -> Seq<char> {
    match c.bind {
        Some(b) => setter_name(b@),
        None => Seq::empty(),
    }
}

pub open spec fn chip_input_handler_text(c: ChipInputElement) -> Seq<char> {
    match c.bind {
        Some(b) => "onKeyDown={(e) => { if (e.key === 'Enter') { const newValue = e.target.value.trim(); if (newValue && !"@
            + chip_bind_name(c) + ".includes(newValue)) { "@ + chip_setter(c) + "([..."@
            + chip_bind_name(c) + ", newValue]); } e.target.value = ''; } }}"@,
        None => Seq::empty(),
    }
}

pub open spec fn chip_display_text(c: ChipInputElement) -> Seq<char> {
    match c.bind {
        Some(b) => "<div className=\"flex flex-wrap gap-2 mb-2\">{"@ + chip_bind_name(c)
            + ".map((chip, i) => <span key={i} className=\"px-2 py-1 bg-blue-100 text-blue-800 rounded-full text-sm flex items-center\">{chip}<button className=\"ml-1 text-blue-600 hover:text-blue-800\" onClick={() => "@
            + chip_setter(c) + "("@ + chip_bind_name(c)
            + ".filter((_, j) => j !== i))}></button></span>)}</div>"@,
        None => Seq::empty(),
    }
}

pub open spec fn chip_suggestions_html_text(c: ChipInputElement) -> Seq<char> {
    if c.suggestions@.len() > 0 {
        "<div className=\"mb-2 flex flex-wrap\">"@ + chip_suggestions_text(
            c.suggestions.deep_view(),
            chip_bind_name(c),
            chip_setter(c),
            0,
        ) + "</div>"@
    } else {
        Seq::<char>::empty()
    }
}

pub open spec fn chip_input_text(c: ChipInputElement, indent: nat) -> Seq<char> {
    let cls = style_text(c.style.deep_view());
    let placeholder = match c.placeholder {
        Some(p) => p@,
        None => "Add tags..."@,
    };
    indent_text(indent) + "<div className=\""@ + cls + "\">"@ + chip_display_text(c)
        + chip_suggestions_html_text(c) + "<input type=\"text\" placeholder=\""@ + placeholder
        + "\" "@ + chip_input_handler_text(c)
        + " className=\"w-full px-3 py-2 border rounded-lg focus:outline-none focus:ring-2 focus:ring-blue-500\" /></div>"@
}

pub open spec fn nav_link_text(link: NavLink, indent: nat) -> Seq<char> {
    let active = if link.active == Some(true) {
        " text-blue-400"@
    } else {
        " text-white hover:text-blue-400"@
    };
    let href = match link.href {
        Some(h) => "href=\""@ + h@ + "\""@,
        None => Seq::empty(),
    };
    indent_text(indent) + "<a "@ + href + " className=\"text-sm font-medium transition-colors"@
        + active + "\">"@ + link.label@ + "</a>\n"@
}

pub open spec fn nav_links_text(links: Seq<NavLink>, indent: nat, i: nat) -> Seq<char>
    decreases links.len() - i,
{
    if i >= links.len() {
        Seq::empty()
    } else {
        nav_link_text(links[i as int], indent) + nav_links_text(links, indent, i + 1)
    }
}

pub open spec fn nav_text(n: NavElement, indent: nat) -> Seq<char> {
    let cls = style_text(n.style.deep_view());
    let sticky = if n.sticky == Some(true) {
        " sticky top-0 z-50"@
    } else {
        Seq::<char>::empty()
    };
    let bg = if n.transparent == Some(true) {
        "bg-transparent"@
    } else {
        "bg-black"@
    };
    let logo = match n.logo {
        Some(l) => "<a href=\"/\" className=\"text-xl font-bold text-white\">"@ + l@ + "</a>"@,
        None => Seq::empty(),
    };
    indent_text(indent) + "<nav className=\""@ + cls
        + " flex items-center justify-between px-6 py-4"@ + sticky + " "@ + bg + "\">"@ + logo
        + "<div className=\"flex items-center gap-6\">"@ + nav_links_text(n.links@, indent, 0)
        + "</div></nav>"@
}

pub open spec fn menu_nav_link_text(link: NavLink, indent: nat) -> Seq<char> {
    let href = match link.href {
        Some(h) => h@,
        None => "#"@,
    };
    indent_text(indent) + "      <a href=\""@ + href + "\" className=\"NavigationMenu-link\">"@
        + link.label@ + "</a>\n"@
}

pub open spec fn menu_nav_links_text(links: Seq<NavLink>, indent: nat, i: nat) -> Seq<char>
    decreases links.len() - i,
{
    if i >= links.len() {
        Seq::empty()
    } else {
        menu_nav_link_text(links[i as int], indent) + menu_nav_links_text(links, indent, i + 1)
    }
}

pub open spec fn menu_item_text(link: NavLink, index: nat, indent: nat) -> Seq<char> {
    let href = match link.href {
        Some(h) => "href=\""@ + h@ + "\""@,
        None => Seq::empty(),
    };
    indent_text(indent) + "          <Menu.Item key={"@ + dec_text(index) + "} asChild>\n"@
        + indent_text(indent) + "            <a "@ + href
        + " className=\"flex items-center px-3 py-2 text-sm text-gray-700 hover:bg-gray-100 rounded cursor-pointer\">\n"@
        + indent_text(indent) + "              "@ + link.label@ + "\n"@ + indent_text(indent)
        + "            </a>\n"@ + indent_text(indent) + "          </Menu.Item>\n"@
}

pub open spec fn menu_items_text(links: Seq<NavLink>, indent: nat, i: nat) -> Seq<char>
    decreases links.len() - i,
{
    if i >= links.len() {
        Seq::empty()
    } else {
        menu_item_text(links[i as int], i, indent) + menu_items_text(links, indent, i + 1)
    }
}

pub open spec fn navigation_menu_text(m: NavigationMenuElement, indent: nat) -> Seq<char> {
    let cls = style_text(m.style.deep_view());
    let nav_class = if cls.len() == 0 {
        "NavigationMenu"@
    } else {
        "NavigationMenu "@ + cls
    };
    indent_text(indent) + "<div className=\""@ + nav_class + "\">\n"@ + indent_text(indent)
        + "  <nav className=\"NavigationMenu-nav flex items-center justify-between px-6 py-4 bg-gray-900 border-b border-gray-700\">\n"@
        + indent_text(indent) + "    <a href=\"/\" className=\"NavigationMenu-logo\">NWL</a>\n"@
        + indent_text(indent) + "    <div className=\"hidden md:flex gap-4 NavigationMenu-nav\">\n"@
        + menu_nav_links_text(m.items@, indent, 0) + indent_text(indent) + "    </div>\n"@
        + indent_text(indent) + "    <Button className=\"Button md:hidden\">\n"@ + indent_text(
        indent,
    )
        + "      <svg className=\"w-5 h-5\" fill=\"none\" stroke=\"currentColor\" viewBox=\"0 0 24 24\" strokeWidth=\"2\" strokeLinecap=\"round\" strokeLinejoin=\"round\"><path d=\"M4 6h16M4 12h16M4 18h16\"></path></svg>\n"@
        + indent_text(indent) + "    </Button>\n"@ + indent_text(indent) + "  </nav>\n"@
        + indent_text(indent) + "  <Menu.Root>\n"@ + indent_text(indent) + "    <Menu.Portal>\n"@
        + indent_text(indent) + "      <Menu.Positioner sideOffset={8} className=\"z-50\">\n"@
        + indent_text(indent)
        + "        <Menu.Popup className=\"Popover-popup min-w-[200px] p-1 bg-white border rounded-lg shadow-lg\">\n"@
        + indent_text(indent) + "          <Menu.Arrow className=\"fill-white\" />\n"@
        + menu_items_text(m.items@, indent, 0) + indent_text(indent) + "        </Menu.Popup>\n"@
        + indent_text(indent) + "      </Menu.Positioner>\n"@ + indent_text(indent)
        + "    </Menu.Portal>\n"@ + indent_text(indent) + "  </Menu.Root>\n"@ + indent_text(indent)
        + "</div>\n"@
}

pub open spec fn url_text(u: UrlElement, indent: nat) -> Seq<char> {
    let cls = style_text(u.style.deep_view());
    if u.placeholder is Some || u.bind is Some {
        let bind = match u.bind {
            Some(b) => " value={"@ + camel_case(b@) + "}"@,
            None => Seq::empty(),
        };
        indent_text(indent) + "<input type=\"url\""@ + opt_quoted_attr(
            " placeholder=\""@,
            opt_view(u.placeholder),
        ) + bind + class_attr(cls) + "/>"@
    } else {
        let target = match u.target {
            Some(t) => "target=\""@ + t@ + "\""@,
            None => Seq::empty(),
        };
        let rel = if u.target matches Some(t) && t@ == "_blank"@ {
            "rel=\"noopener noreferrer\""@
        } else {
            Seq::<char>::empty()
        };
        let href = match u.href {
            Some(h) => h@,
            None => Seq::empty(),
        };
        let content = match u.content {
            Some(c) => c@,
            None => match u.href {
                Some(h) => h@,
                None => Seq::empty(),
            },
        };
        let props = if cls.len() == 0 {
            "href=\""@ + href + "\""@
        } else {
            "href=\""@ + href + "\" className=\""@ + cls + "\""@
        };
        indent_text(indent) + "<a "@ + props + " "@ + target + " "@ + rel + ">"@ + content
            + "</a>"@
    }
}

pub open spec fn email_text(e: EmailElement, indent: nat) -> Seq<char> {
    let cls = style_text(e.style.deep_view());
    if e.placeholder is Some || e.bind is Some {
        let bind = match e.bind {
            Some(b) => " value={"@ + camel_case(b@) + "}"@,
            None => Seq::empty(),
        };
        indent_text(indent) + "<input type=\"email\""@ + opt_quoted_attr(
            " placeholder=\""@,
            opt_view(e.placeholder),
        ) + bind + class_attr(cls) + "/>"@
    } else {
        let address = match e.address {
            Some(a) => a@,
            None => Seq::empty(),
        };
        let mailto = match e.subject {
            Some(s) => "mailto:"@ + address + "?subject="@ + s@,
            None => "mailto:"@ + address,
        };
        let content = match e.content {
            Some(c) => c@,
            None => address,
        };
        let props = if cls.len() == 0 {
            "href=\""@ + mailto + "\""@
        } else {
            "href=\""@ + mailto + "\" className=\""@ + cls + "\""@
        };
        indent_text(indent) + "<a "@ + props + ">"@ + content + "</a>"@
    }
}

pub open spec fn list_item_text(item: ListItem, index: nat, indent: nat) -> Seq<char> {
    let click = match item.onClick {
        Some(h) => " onClick={() => "@ + h@ + "}"@,
        None => Seq::empty(),
    };
    indent_text(indent) + "  <div key=\"list-item-"@ + dec_text(index)
        + "\" className=\"List-item\""@ + click + ">\n"@ + indent_text(indent) + "    "@
        + item.content@ + "\n"@ + indent_text(indent) + "  </div>\n"@
}

pub open spec fn list_items_text(items: Seq<ListItem>, indent: nat, i: nat) -> Seq<char>
    decreases items.len() - i,
{
    if i >= items.len() {
        Seq::empty()
    } else {
        list_item_text(items[i as int], i, indent) + list_items_text(items, indent, i + 1)
    }
}

/// A list renders its fixed items, or, when a data source variable is
/// named, an iteration over that source keyed by the item index.
pub open spec fn list_text(l: ListElement, indent: nat) -> Seq<char> {
    let cls = style_text(l.style.deep_view());
    let body = match l.data {
        Some(d) => indent_text(indent) + "  {"@ + d@
            + ".map((item, index) => <div key={index} className=\"List-item\">{item}</div>)}\n"@,
        None => list_items_text(l.items@, indent, 0),
    };
    indent_text(indent) + "<div"@ + based_class_attr("List"@, cls) + ">\n"@ + body + indent_text(
        indent,
    ) + "</div>\n"@
}

pub open spec fn captcha_text(c: CaptchaConfig, indent: nat) -> Seq<char> {
    let site_key = match c.siteKey {
        Some(k) => k@,
        None => Seq::empty(),
    };
    match c.provider {
        CaptchaProvider::Cloudflare => {
            let theme = match c.theme {
                Some(t) => t@,
                None => "auto"@,
            };
            indent_text(indent) + "<div className=\"cf-turnstile\" data-sitekey=\""@ + site_key
                + "\" data-theme=\""@ + theme + "\"></div>"@
        },
        CaptchaProvider::Recaptcha => {
            let v3 = match c.version {
                Some(v) => v@ == "v3"@,
                None => false,
            };
            if v3 {
                let action = match c.action {
                    Some(a) => a@,
                    None => "submit"@,
                };
                indent_text(indent) + "<div id=\"recaptcha-container\" data-sitekey=\""@ + site_key
                    + "\" data-action=\""@ + action + "\"></div>"@
            } else {
                indent_text(indent) + "<div className=\"g-recaptcha\" data-sitekey=\""@ + site_key
                    + "\"></div>"@
            }
        },
        CaptchaProvider::HCaptcha => {
            let theme = match c.theme {
                Some(t) => t@,
                None => "light"@,
            };
            indent_text(indent) + "<div className=\"h-captcha\" data-sitekey=\""@ + site_key
                + "\" data-theme=\""@ + theme + "\"></div>"@
        },
    }
}

/// `required` lowers to a non-empty-after-trim check; a failure logs the
/// declared message or `"<field> is required"`.
pub open spec fn required_check_text(field: Seq<char>, rule: ValidationRule) -> Seq<char> {
    let msg = match rule.message {
        Some(m) => m@,
        None => field + " is required"@,
    };
    "if (!"@ + camel_case(field) + ".trim()) { console.error('"@ + msg
        + "'); _hasError = true; }"@
}

/// `pattern` lowers to a regular-expression test; a failure logs the
/// declared message or `"Invalid format for <field>"`.
pub open spec fn pattern_check_text(field: Seq<char>, p: Seq<char>, rule: ValidationRule) -> Seq<
    char,
> {
    let msg = match rule.message {
        Some(m) => m@,
        None => "Invalid format for "@ + field,
    };
    "if (!new RegExp('"@ + escape_backslashes(p) + "').test("@ + camel_case(field)
        + ")) { console.error('"@ + msg + "'); _hasError = true; }"@
}

/// `minLength` lowers to a length lower-bound check; a failure logs the
/// declared message or `"<field> must be at least <n> characters"`.
pub open spec fn min_length_check_text(field: Seq<char>, n: nat, rule: ValidationRule) -> Seq<
    char,
> {
    let msg = match rule.message {
        Some(m) => m@,
        None => field + " must be at least "@ + dec_text(n) + " characters"@,
    };
    "if ("@ + camel_case(field) + ".length < "@ + dec_text(n) + ") { console.error('"@ + msg
        + "'); _hasError = true; }"@
}

/// `maxLength` lowers to a length upper-bound check; a failure logs the
/// declared message or `"<field> must be no more than <n> characters"`.
pub open spec fn max_length_check_text(field: Seq<char>, n: nat, rule: ValidationRule) -> Seq<
    char,
> {
    let msg = match rule.message {
        Some(m) => m@,
        None => field + " must be no more than "@ + dec_text(n) + " characters"@,
    };
    "if ("@ + camel_case(field) + ".length > "@ + dec_text(n) + ") { console.error('"@ + msg
        + "'); _hasError = true; }"@
}

/// The inline checks one validation rule lowers to, in rule order:
/// `required`, `pattern`, `minLength`, `maxLength`.
pub open spec fn rule_checks(field: Seq<char>, rule: ValidationRule) -> Seq<Seq<char>> {
    let required = if rule.required == Some(true) {
        seq![required_check_text(field, rule)]
    } else {
        Seq::<Seq<char>>::empty()
    };
    let pattern = match rule.pattern {
        Some(p) => seq![pattern_check_text(field, p@, rule)],
        None => Seq::<Seq<char>>::empty(),
    };
    let min_len = match rule.minLength {
        Some(n) => seq![min_length_check_text(field, n as nat, rule)],
        None => Seq::<Seq<char>>::empty(),
    };
    let max_len = match rule.maxLength {
        Some(n) => seq![max_length_check_text(field, n as nat, rule)],
        None => Seq::<Seq<char>>::empty(),
    };
    required + pattern + min_len + max_len
}

pub open spec fn rules_checks(field: Seq<char>, rules: Seq<ValidationRule>, i: nat) -> Seq<
    Seq<char>,
>
    decreases rules.len() - i,
{
    if i >= rules.len() {
        Seq::empty()
    } else {
        rule_checks(field, rules[i as int]) + rules_checks(field, rules, i + 1)
    }
}

pub open spec fn validation_checks(v: Seq<(String, Vec<ValidationRule>)>, i: nat) -> Seq<Seq<char>>
    decreases v.len() - i,
{
    if i >= v.len() {
        Seq::empty()
    } else {
        rules_checks(v[i as int].0@, v[i as int].1@, 0) + validation_checks(v, i + 1)
    }
}

pub open spec fn captcha_flag_check() -> Seq<char> {
    "if (!window.captchaToken) { console.error('Please complete the captcha'); _hasError = true; }"@
}

/// All inline checks of a form's submit handler, in declaration order, with
/// the captcha-token check last when a captcha is configured.
pub open spec fn form_checks(f: FormElement) -> Seq<Seq<char>> {
    let from_validation = match f.validation {
        Some(v) => validation_checks(v@, 0),
        None => Seq::empty(),
    };
    if f.captcha is Some {
        from_validation + seq![captcha_flag_check()]
    } else {
        from_validation
    }
}

pub open spec fn form_validation_code(f: FormElement) -> Seq<char> {
    let checks = form_checks(f);
    if checks.len() == 0 {
        Seq::empty()
    } else {
        let error_handling = match f.onValidationError {
            Some(h) => h@ + ";"@,
            None => Seq::empty(),
        };
        "let _hasError = false; "@ + joined_spaces(checks)
            + " if (_hasError) { console.error('Validation failed'); "@ + error_handling
            + " return; }"@
    }
}

/// The synthesized submit handler: it always prevents default submission,
/// runs the inline checks, and calls the declared handler only when every
/// check passed.
pub open spec fn form_submit_handler_text(f: FormElement) -> Seq<char> {
    match f.onSubmit {
        Some(h) => "onSubmit={(e) => { e.preventDefault(); "@ + form_validation_code(f) + " "@
            + h@ + " }}"@,
        None => "onSubmit={(e) => { e.preventDefault(); "@ + form_validation_code(f) + " }}"@,
    }
}

/// One generated line per element: the padding, the element's text at the
/// given level, and a newline.
pub open spec fn element_lines(es: Seq<Element>, pad: Seq<char>, indent: nat, i: nat) -> Seq<char>
    decreases es, 1int, es.len() - i,
{
    if i >= es.len() {
        Seq::empty()
    } else {
        pad + element_text(es[i as int], indent) + "\n"@ + element_lines(es, pad, indent, i + 1)
    }
}

/// Lines of a container's children: padded two spaces past the container,
/// generated one level deeper.
pub open spec fn children_lines(es: Seq<Element>, indent: nat) -> Seq<char> {
    element_lines(es, indent_text(indent) + "  "@, next_indent(indent), 0)
}

pub open spec fn card_text(c: CardElement, indent: nat) -> Seq<char>
    decreases c, 2int, 0int,
{
    let cls = style_text(c.style.deep_view());
    indent_text(indent) + "<div"@ + based_class_attr("Card"@, cls) + ">\n"@ + element_lines(
        c.children@,
        indent_text(indent) + "  "@,
        next_indent(indent),
        0,
    ) + indent_text(indent) + "</div>\n"@
}

pub open spec fn container_text(c: ContainerElement, indent: nat) -> Seq<char>
    decreases c, 2int, 0int,
{
    let cls = style_text(c.style.deep_view());
    indent_text(indent) + "<div"@ + class_attr(cls) + ">\n"@ + element_lines(
        c.children@,
        indent_text(indent) + "  "@,
        next_indent(indent),
        0,
    ) + indent_text(indent) + "</div>\n"@
}

pub open spec fn layout_element_text(l: LayoutElement, indent: nat) -> Seq<char>
    decreases l, 2int, 0int,
{
    indent_text(indent) + "<div"@ + layout_props_text(l.layout) + ">\n"@ + element_lines(
        l.children@,
        indent_text(indent) + "  "@,
        next_indent(indent),
        0,
    ) + indent_text(indent) + "</div>\n"@
}

pub open spec fn form_text(f: FormElement, indent: nat) -> Seq<char>
    decreases f, 2int, 0int,
{
    let cls = style_text(f.style.deep_view());
    let captcha_line = match f.captcha {
        Some(c) => indent_text(indent) + "  "@ + captcha_text(c, next_indent(indent)) + "\n"@,
        None => Seq::empty(),
    };
    indent_text(indent) + "<Form"@ + based_class_attr("Form"@, cls) + " "@
        + form_submit_handler_text(f) + ">\n"@ + element_lines(
        f.children@,
        indent_text(indent) + "  "@,
        next_indent(indent),
        0,
    ) + captcha_line + indent_text(indent) + "</Form>\n"@
}

pub open spec fn fieldset_text(f: FieldsetElement, indent: nat) -> Seq<char>
    decreases f, 2int, 0int,
{
    let cls = style_text(f.style.deep_view());
    let legend = match f.legend {
        Some(l) => indent_text(indent) + "  <Fieldset.Legend className=\"Fieldset-legend\">"@ + l@
            + "</Fieldset.Legend>\n"@,
        None => Seq::empty(),
    };
    indent_text(indent) + "<Fieldset.Root"@ + based_class_attr("Fieldset-root"@, cls) + ">\n"@
        + legend + element_lines(
        f.children@,
        indent_text(indent) + "  "@,
        next_indent(indent),
        0,
    ) + indent_text(indent) + "</Fieldset.Root>\n"@
}

pub open spec fn dialog_text(d: DialogElement, indent: nat) -> Seq<char>
    decreases d, 2int, 0int,
{
    let cls = style_text(d.style.deep_view());
    let popup_class = if cls.len() == 0 {
        "Dialog-popup"@
    } else {
        "Dialog-popup "@ + cls
    };
    let open_attr = match d.open {
        Some(o) => " open={"@ + camel_case(o@) + "}"@,
        None => Seq::empty(),
    };
    let onopenchange = match d.open {
        Some(o) => " onOpenChange={open => "@ + setter_name(o@) + "(open)}"@,
        None => Seq::empty(),
    };
    let trigger = match d.open {
        Some(o) => Seq::<char>::empty(),
        None => indent_text(indent) + "  <Dialog.Trigger asChild>\n"@ + indent_text(indent)
            + "    <Button>Open dialog</Button>\n"@ + indent_text(indent)
            + "  </Dialog.Trigger>\n"@,
    };
    let title = match d.title {
        Some(t) => indent_text(indent) + "      <Dialog.Title className=\"Dialog-title\">"@ + t@
            + "</Dialog.Title>\n"@,
        None => Seq::empty(),
    };
    let close = if d.onClose is Some {
        indent_text(indent) + "      <Dialog.Close className=\"Dialog-close\">\n"@ + indent_text(
            indent,
        ) + "        <span className=\"sr-only\">Close</span>\n"@ + indent_text(indent)
            + "      </Dialog.Close>\n"@
    } else {
        Seq::<char>::empty()
    };
    indent_text(indent) + "<Dialog.Root"@ + open_attr + onopenchange + ">\n"@ + trigger
        + indent_text(indent) + "  <Dialog.Portal>\n"@ + indent_text(indent)
        + "    <Dialog.Backdrop className=\"Dialog-backdrop\" />\n"@ + indent_text(indent)
        + "    <Dialog.Popup className=\""@ + popup_class + "\">\n"@ + title + element_lines(
        d.children@,
        indent_text(indent) + "        "@,
        bump_indent(indent, 4),
        0,
    ) + close + indent_text(indent) + "    </Dialog.Popup>\n"@ + indent_text(indent)
        + "  </Dialog.Portal>\n"@ + indent_text(indent) + "</Dialog.Root>\n"@
}

/// The output of the element dispatcher: each variant lowered by its own
/// rule.
pub open spec fn element_text(e: Element, indent: nat) -> Seq<char>
    decreases e, 0int, 0int,
{
    match e {
        Element::Heading(h) => heading_text(h, indent),
        Element::Text(t) => text_text(t, indent),
        Element::Button(b) => button_text(b, indent),
        Element::Card(c) => card_text(c, indent),
        Element::List(l) => list_text(l, indent),
        Element::Layout(l) => layout_element_text(l, indent),
        Element::Input(i) => input_text(i, indent),
        Element::Image(i) => image_text(i, indent),
        Element::Spacer(s) => spacer_text(s, indent),
        Element::Container(c) => container_text(c, indent),
        Element::Checkbox(c) => checkbox_text(c, indent),
        Element::Slider(s) => slider_text(s, indent),
        Element::Select(s) => select_text(s, indent),
        Element::RadioGroup(r) => radio_group_text(r, indent),
        Element::Textarea(t) => textarea_text(t, indent),
        Element::Form(f) => form_text(f, indent),
        Element::Field(f) => field_text(f, indent),
        Element::Fieldset(f) => fieldset_text(f, indent),
        Element::DateInput(d) => date_input_text(d, indent),
        Element::TimeInput(t) => time_input_text(t, indent),
        Element::DateTimeInput(d) => datetime_input_text(d, indent),
        Element::ColorPicker(c) => color_picker_text(c, indent),
        Element::FileUpload(f) => file_upload_text(f, indent),
        Element::Progress(p) => progress_text(p, indent),
        Element::Toggle(t) => toggle_text(t, indent),
        Element::Tabs(t) => tabs_text(t, indent),
        Element::Accordion(a) => accordion_text(a, indent),
        Element::Dialog(d) => dialog_text(d, indent),
        Element::Tooltip(t) => tooltip_text(t, indent),
        Element::Popover(p) => popover_text(p, indent),
        Element::Badge(b) => badge_text(b, indent),
        Element::Tag(t) => tag_text(t, indent),
        Element::Alert(a) => alert_text(a, indent),
        Element::Spinner(s) => spinner_text(s, indent),
        Element::Counter(c) => counter_text(c, indent),
        Element::SearchInput(s) => search_input_text(s, indent),
        Element::CopyButton(c) => copy_button_text(c, indent),
        Element::Pagination(p) => pagination_text(p, indent),
        Element::Breadcrumb(b) => breadcrumb_text(b, indent),
        Element::Avatar(a) => avatar_text(a, indent),
        Element::ChipInput(c) => chip_input_text(c, indent),
        Element::Nav(n) => nav_text(n, indent),
        Element::NavigationMenu(m) => navigation_menu_text(m, indent),
        Element::Url(u) => url_text(u, indent),
        Element::Email(e) => email_text(e, indent),
    }
}

/// One entry of a sequence literal: strings quoted, numbers and booleans
/// bare, a null as the null literal, and a nested sequence recursively
/// bracketed.
pub open spec fn state_item_text(v: StateValue) -> Seq<char>
    decreases v, 0int, 0int,
{
    match v {
        StateValue::Str(s) => "\""@ + s@ + "\""@,
        StateValue::Num(n) => n@,
        StateValue::Bool(b) => bool_text(b),
        StateValue::Null => "null"@,
        StateValue::List(items) => "["@ + state_items_text(items@, 0) + "]"@,
    }
}

pub open spec fn state_items_text(items: Seq<StateValue>, i: nat) -> Seq<char>
    decreases items, 1int, items.len() - i,
{
    if i >= items.len() {
        Seq::empty()
    } else {
        let sep = if i > 0 {
            ", "@
        } else {
            Seq::<char>::empty()
        };
        sep + state_item_text(items[i as int]) + state_items_text(items, i + 1)
    }
}

/// The initial-value literal of a state hook: numbers bare, strings quoted,
/// booleans as `true`/`false`, an absent or null value as `null`, sequences
/// bracketed and comma-joined.
pub open spec fn state_literal_text(init: Option<StateValue>) -> Seq<char> {
    match init {
        Some(v) => match v {
            StateValue::Num(n) => n@,
            StateValue::Str(s) => "\""@ + s@ + "\""@,
            StateValue::Bool(b) => bool_text(b),
            StateValue::Null => "null"@,
            StateValue::List(items) => "["@ + state_items_text(items@, 0) + "]"@,
        },
        None => "null"@,
    }
}

/// `[name, setName] = useState(initial)` for one state definition.
pub open spec fn hook_decl_text(sd: StateDefinition) -> Seq<char> {
    "["@ + camel_case(sd.name@) + ", "@ + setter_name(sd.name@) + "] = useState("@
        + state_literal_text(sd.initial) + ")"@
}

/// The comma-joined hook declarations; `lead` records that a declaration
/// (the implicit menu hook) already stands before these.
pub open spec fn hook_decls_text(states: Seq<StateDefinition>, lead: bool, i: nat) -> Seq<char>
    decreases states.len() - i,
{
    if i >= states.len() {
        Seq::empty()
    } else {
        let sep = if lead || i > 0 {
            ", "@
        } else {
            Seq::<char>::empty()
        };
        sep + hook_decl_text(states[i as int]) + hook_decls_text(states, lead, i + 1)
    }
}

/// Whether an element asks for the implicit hamburger-menu state hook.
pub open spec fn wants_menu_state(e: Element) -> bool {
    e matches Element::NavigationMenu(m) && m.hamburger == Some(true)
}

pub open spec fn has_hamburger_menu(es: Seq<Element>) -> bool {
    exists|i: int| 0 <= i < es.len() && wants_menu_state(#[trigger] es[i])
}

/// The hook-declaration line of a page: the implicit menu hook first when a
/// child requests it, then the declared state in order; nothing at all when
/// the page needs no state.
pub open spec fn hooks_section_text(p: PageData) -> Seq<char> {
    let menu = has_hamburger_menu(p.children@);
    if p.state@.len() > 0 || menu {
        let menu_decl = if menu {
            "[menuOpen, setMenuOpen] = useState(false)"@
        } else {
            Seq::<char>::empty()
        };
        "  const "@ + menu_decl + hook_decls_text(p.state@, menu, 0) + ";\n"@
    } else {
        Seq::empty()
    }
}

/// The classes of the page's layout wrapper: the page-level style classes
/// first, then the layout's derived layout classes.
pub open spec fn page_wrapper_classes(p: PageData, l: Layout) -> Seq<Seq<char>> {
    p.style.deep_view() + layout_classes(l)
}

/// The rendered children of a page: wrapped in one `div` carrying the
/// page style and the layout's derived classes when the page declares a
/// layout, bare otherwise.
pub open spec fn page_children_text(p: PageData) -> Seq<char> {
    match p.layout {
        Some(l) => {
            let classes = page_wrapper_classes(p, l);
            let attr = if classes.len() == 0 {
                Seq::<char>::empty()
            } else {
                " className=\""@ + joined_spaces(classes) + "\""@
            };
            "      <div"@ + attr + ">\n"@ + element_lines(p.children@, "        "@, 2, 0)
                + "      </div>\n"@
        },
        None => element_lines(p.children@, "      "@, 1, 0),
    }
}

/// The component function of one page.
pub open spec fn page_text(p: PageData) -> Seq<char> {
    "export default function "@ + pascal_case(p.name@) + "() {\n"@ + hooks_section_text(p)
        + "  return (\n    <>\n"@ + page_children_text(p) + "    </>\n  );\n}\n"@
}

/// The React import line: the state hook is imported exactly when the
/// component declares any hook, whether from the page's state list or the
/// implicit hamburger-menu hook.
pub open spec fn react_import_text(p: PageData) -> Seq<char> {
    if p.state@.len() > 0 || has_hamburger_menu(p.children@) {
        "import React, { useState } from 'react';\n"@
    } else {
        "import React from 'react';\n"@
    }
}

pub open spec fn base_ui_import_text() -> Seq<char> {
    "import {\n  Button,\n  Checkbox,\n  Select,\n  Radio,\n  RadioGroup,\n  Switch,\n  Separator,\n  NumberField,\n  Dialog,\n  Menu,\n  Accordion,\n  Form,\n  Field,\n  Fieldset,\n  Tooltip,\n  Popover,\n} from '@base-ui/react';\n\n"@
}

/// The whole component source file of one page.
pub open spec fn component_text(p: PageData) -> Seq<char> {
    react_import_text(p) + base_ui_import_text() + page_text(p) + "\n"@
}

/// The router entry module: framework bootstrap, a conditional stylesheet
/// import, the accumulated imports, and the route table.
pub open spec fn router_text(imports: Seq<char>, routes: Seq<char>, has_css: bool) -> Seq<char> {
    let css_import = if has_css {
        "import '../themes/processed.css';\n"@
    } else {
        Seq::<char>::empty()
    };
    "import React from 'react'\nimport ReactDOM from 'react-dom/client'\nimport { BrowserRouter, Routes, Route } from 'react-router-dom'\nimport './index.css'\n"@
        + css_import + "\n\n"@ + imports
        + "\n\n\nReactDOM.createRoot(document.getElementById('root')!).render(\n  <React.StrictMode>\n    <BrowserRouter>\n      <Routes>\n"@
        + routes + "\n      </Routes>\n    </BrowserRouter>\n  </React.StrictMode>,\n)\n"@
}


/// One page's contribution to the theme side of the stylesheet bundle.
pub open spec fn page_theme_block(p: PageData) -> Seq<char> {
    match p.css_theme {
        Some(t) => if t@ == "default"@ {
            "/* Default Base UI Theme */\n"@ + default_theme_text() + "\n"@
        } else {
            "/* Custom theme: "@ + t@ + " */\n@import './themes/"@ + t@ + ".css';\n"@
        },
        None => Seq::empty(),
    }
}

pub open spec fn theme_blocks(pages: Seq<Page>, i: nat) -> Seq<char>
    decreases pages.len() - i,
{
    if i >= pages.len() {
        Seq::empty()
    } else {
        page_theme_block(pages[i as int].page_data) + theme_blocks(pages, i + 1)
    }
}

/// One page's contribution to the override side of the stylesheet bundle.
pub open spec fn page_override_block(p: PageData) -> Seq<char> {
    match p.css_override {
        Some(o) => if o@ == "default"@ {
            "/* Override styles: "@ + o@ + " */\n"@
                + "/* Add your custom override styles here */\n"@
        } else {
            "/* Override styles: "@ + o@ + " */\n"@ + "@import './themes/"@ + o@ + "';\n"@
        },
        None => Seq::empty(),
    }
}

pub open spec fn override_blocks(pages: Seq<Page>, i: nat) -> Seq<char>
    decreases pages.len() - i,
{
    if i >= pages.len() {
        Seq::empty()
    } else {
        page_override_block(pages[i as int].page_data) + override_blocks(pages, i + 1)
    }
}

pub open spec fn any_page_theme(pages: Seq<Page>) -> bool {
    exists|i: int| 0 <= i < pages.len() && (#[trigger] pages[i]).page_data.css_theme is Some
}

pub open spec fn any_page_override(pages: Seq<Page>) -> bool {
    exists|i: int| 0 <= i < pages.len() && (#[trigger] pages[i]).page_data.css_override is Some
}

/// The theme-and-override stylesheet bundle of a document: the pages'
/// theme blocks (or the built-in default when no page declares a theme),
/// a separator, and the pages' override blocks (or a placeholder when no
/// page declares an override).
pub open spec fn css_bundle_text(doc: Document) -> Seq<char> {
    let theme_part = if any_page_theme(doc.pages@) {
        theme_blocks(doc.pages@, 0)
    } else {
        theme_blocks(doc.pages@, 0) + "/* Default Base UI Theme */\n"@ + default_theme_text()
            + "\n"@
    };
    let override_part = if any_page_override(doc.pages@) {
        override_blocks(doc.pages@, 0)
    } else {
        "/* Theme Overrides */\n/* Add your custom override styles here */\n"@
    };
    theme_part + "\n===OVERRIDE_FILE===\n"@ + override_part
}

pub open spec fn any_page_css(pages: Seq<Page>) -> bool {
    exists|i: int|
        0 <= i < pages.len() && ((#[trigger] pages[i]).page_data.css_theme is Some
            || pages[i].page_data.css_override is Some)
}

/// Whether a build writes a processed stylesheet: the project or any page
/// declares a theme or an override.
pub open spec fn wants_css_import(
    doc: Document,
    css_theme: Option<Seq<char>>,
    css_override: Option<Seq<char>>,
) -> bool {
    css_theme is Some || css_override is Some || any_page_css(doc.pages@)
}


/// ASCII lowercase of a component name, for its file reference.
pub open spec fn ascii_lower(s: Seq<char>) -> Seq<char> {
    s.map_values(|c: char| lower_char(c))
}

/// `import Name from './name';` for one routed component.
pub open spec fn import_statement_text(name: Seq<char>) -> Seq<char> {
    "import "@ + name + " from './"@ + ascii_lower(name) + "';\n"@
}

/// One route-table line binding a path to its component.
pub open spec fn route_entry_text(path: Seq<char>, name: Seq<char>) -> Seq<char> {
    "        <Route path=\""@ + path + "\" element={<"@ + name + " />} />\n"@
}

/// The accumulated import statements of the routes, in declaration order.
pub open spec fn import_statements_text(entries: Seq<(Seq<char>, Seq<char>)>, i: nat) -> Seq<char>
    decreases entries.len() - i,
{
    if i >= entries.len() {
        Seq::empty()
    } else {
        import_statement_text(entries[i as int].1) + import_statements_text(entries, i + 1)
    }
}

/// The accumulated route-table entries, in declaration order, separated by
/// blank lines.
pub open spec fn route_entries_text(entries: Seq<(Seq<char>, Seq<char>)>, i: nat) -> Seq<char>
    decreases entries.len() - i,
{
    if i >= entries.len() {
        Seq::empty()
    } else {
        let sep = if i + 1 < entries.len() {
            "\n"@
        } else {
            Seq::<char>::empty()
        };
        route_entry_text(entries[i as int].0, entries[i as int].1) + sep + route_entries_text(
            entries,
            i + 1,
        )
    }
}

} // verus!
