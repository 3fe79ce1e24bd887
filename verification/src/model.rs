//! The document model: the typed tree of pages, elements, layouts and state
//! definitions that the generators consume. Values of these types are built
//! once per build pass and read-only thereafter.

use vstd::prelude::*;

verus! {

#[derive(Debug, Clone, PartialEq, Eq)]
pub enum LayoutType {
    Column,
    Row,
    Stack,
    Grid,
}

#[derive(Debug, Clone, PartialEq, Eq)]
pub struct Layout {
    pub layout_type: LayoutType,
    pub columns: Option<u32>,
    pub properties: Vec<String>,
}

/// The closed set of element variants. The dispatcher in the code generator
/// matches exhaustively over this enum, so extending it forces every
/// consumer to be updated.
#[derive(Debug, PartialEq, Eq)]
pub enum Element {
    Heading(HeadingElement),
    Text(TextElement),
    Button(ButtonElement),
    Card(CardElement),
    List(ListElement),
    Layout(LayoutElement),
    Input(InputElement),
    Image(ImageElement),
    Spacer(SpacerElement),
    Container(ContainerElement),
    Checkbox(CheckboxElement),
    Slider(SliderElement),
    Select(SelectElement),
    RadioGroup(RadioGroupElement),
    Textarea(TextareaElement),
    Form(FormElement),
    Field(FieldElement),
    Fieldset(FieldsetElement),
    DateInput(DateInputElement),
    TimeInput(TimeInputElement),
    DateTimeInput(DateTimeInputElement),
    ColorPicker(ColorPickerElement),
    FileUpload(FileUploadElement),
    Progress(ProgressElement),
    Toggle(ToggleElement),
    Tabs(TabsElement),
    Accordion(AccordionElement),
    Dialog(DialogElement),
    Tooltip(TooltipElement),
    Popover(PopoverElement),
    Badge(BadgeElement),
    Tag(TagElement),
    Alert(AlertElement),
    Spinner(SpinnerElement),
    Counter(CounterElement),
    SearchInput(SearchInputElement),
    CopyButton(CopyButtonElement),
    Pagination(PaginationElement),
    Breadcrumb(BreadcrumbElement),
    Avatar(AvatarElement),
    ChipInput(ChipInputElement),
    Nav(NavElement),
    NavigationMenu(NavigationMenuElement),
    Url(UrlElement),
    Email(EmailElement),
}

#[derive(Debug, Clone, PartialEq, Eq)]
pub struct HeadingElement {
    pub content: String,
    pub style: Vec<String>,
}

#[derive(Debug, Clone, PartialEq, Eq)]
pub struct TextElement {
    pub content: String,
    pub style: Vec<String>,
}

#[derive(Debug, Clone, PartialEq, Eq)]
#[allow(non_snake_case)]
pub struct ButtonElement {
    pub content: String,
    pub onClick: Option<String>,
    pub style: Vec<String>,
}

#[derive(Debug, PartialEq, Eq)]
pub struct CardElement {
    pub children: Vec<Element>,
    pub style: Vec<String>,
}

#[derive(Debug, Clone, PartialEq, Eq)]
#[allow(non_snake_case)]
pub struct ListItem {
    pub content: String,
    pub onClick: Option<String>,
}

#[derive(Debug, Clone, PartialEq, Eq)]
pub struct ListElement {
    pub items: Vec<ListItem>,
    pub data: Option<String>,
    pub style: Vec<String>,
}

#[derive(Debug, PartialEq, Eq)]
pub struct LayoutElement {
    pub layout: Layout,
    pub children: Vec<Element>,
}

#[derive(Debug, Clone, PartialEq, Eq)]
#[allow(non_snake_case)]
pub struct InputElement {
    pub placeholder: Option<String>,
    pub value: Option<String>,
    pub bind: Option<String>,
    pub onChange: Option<String>,
    pub style: Vec<String>,
}

#[derive(Debug, Clone, PartialEq, Eq)]
pub struct ImageElement {
    pub src: Option<String>,
    pub alt: Option<String>,
    pub style: Vec<String>,
}

#[derive(Debug, Clone, PartialEq, Eq)]
pub struct SpacerElement {
    pub size: Option<String>,
}

#[derive(Debug, PartialEq, Eq)]
pub struct ContainerElement {
    pub children: Vec<Element>,
    pub style: Vec<String>,
}

#[derive(Debug, Clone, PartialEq, Eq)]
#[allow(non_snake_case)]
pub struct CheckboxElement {
    pub label: Option<String>,
    pub bind: Option<String>,
    pub onChange: Option<String>,
    pub style: Vec<String>,
}

#[derive(Debug, Clone, PartialEq, Eq)]
#[allow(non_snake_case)]
pub struct SliderElement {
    pub bind: Option<String>,
    pub min: Option<i32>,
    pub max: Option<i32>,
    pub step: Option<i32>,
    pub label: Option<String>,
    pub onChange: Option<String>,
    pub style: Vec<String>,
}

#[derive(Debug, Clone, PartialEq, Eq)]
pub struct SelectOption {
    pub value: String,
    pub label: Option<String>,
}

#[derive(Debug, Clone, PartialEq, Eq)]
#[allow(non_snake_case)]
pub struct SelectElement {
    pub placeholder: Option<String>,
    pub bind: Option<String>,
    pub options: Vec<SelectOption>,
    pub onChange: Option<String>,
    pub style: Vec<String>,
}

#[derive(Debug, Clone, PartialEq, Eq)]
pub struct RadioOption {
    pub value: String,
    pub label: Option<String>,
}

#[derive(Debug, Clone, PartialEq, Eq)]
#[allow(non_snake_case)]
pub struct RadioGroupElement {
    pub label: Option<String>,
    pub bind: Option<String>,
    pub options: Vec<RadioOption>,
    pub onChange: Option<String>,
    pub style: Vec<String>,
}

#[derive(Debug, Clone, PartialEq, Eq)]
#[allow(non_snake_case)]
pub struct TextareaElement {
    pub placeholder: Option<String>,
    pub bind: Option<String>,
    pub rows: Option<u32>,
    pub onChange: Option<String>,
    pub style: Vec<String>,
}

#[derive(Debug, Clone, PartialEq, Eq)]
pub enum CaptchaProvider {
    Cloudflare,
    Recaptcha,
    HCaptcha,
}

#[derive(Debug, Clone, PartialEq, Eq)]
#[allow(non_snake_case)]
pub struct CaptchaConfig {
    pub provider: CaptchaProvider,
    pub siteKey: Option<String>,
    pub theme: Option<String>,
    pub version: Option<String>,
    pub action: Option<String>,
}

#[derive(Debug, Clone, PartialEq, Eq)]
#[allow(non_snake_case)]
pub struct ValidationRule {
    pub required: Option<bool>,
    pub pattern: Option<String>,
    pub minLength: Option<u32>,
    pub maxLength: Option<u32>,
    pub message: Option<String>,
}

/// Validation is an ordered mapping from field name to its rules; the
/// submit handler runs the checks in this declaration order.
#[derive(Debug, PartialEq, Eq)]
#[allow(non_snake_case)]
pub struct FormElement {
    pub onSubmit: Option<String>,
    pub validation: Option<Vec<(String, Vec<ValidationRule>)>>,
    pub captcha: Option<CaptchaConfig>,
    pub onValidationError: Option<String>,
    pub children: Vec<Element>,
    pub style: Vec<String>,
}

#[derive(Debug, Clone, PartialEq, Eq)]
pub struct FieldElement {
    pub name: String,
    pub label: Option<String>,
    pub placeholder: Option<String>,
    pub style: Vec<String>,
}

#[derive(Debug, PartialEq, Eq)]
pub struct FieldsetElement {
    pub legend: Option<String>,
    pub children: Vec<Element>,
    pub style: Vec<String>,
}

#[derive(Debug, Clone, PartialEq, Eq)]
#[allow(non_snake_case)]
pub struct DateInputElement {
    pub bind: Option<String>,
    pub min: Option<String>,
    pub max: Option<String>,
    pub placeholder: Option<String>,
    pub onChange: Option<String>,
    pub style: Vec<String>,
}

#[derive(Debug, Clone, PartialEq, Eq)]
#[allow(non_snake_case)]
pub struct TimeInputElement {
    pub bind: Option<String>,
    pub min: Option<String>,
    pub max: Option<String>,
    pub step: Option<u32>,
    pub placeholder: Option<String>,
    pub onChange: Option<String>,
    pub style: Vec<String>,
}

#[derive(Debug, Clone, PartialEq, Eq)]
#[allow(non_snake_case)]
pub struct DateTimeInputElement {
    pub bind: Option<String>,
    pub min: Option<String>,
    pub max: Option<String>,
    pub placeholder: Option<String>,
    pub onChange: Option<String>,
    pub style: Vec<String>,
}

#[derive(Debug, Clone, PartialEq, Eq)]
#[allow(non_snake_case)]
pub struct ColorPickerElement {
    pub bind: Option<String>,
    pub showPalette: Option<bool>,
    pub onChange: Option<String>,
    pub style: Vec<String>,
}

#[derive(Debug, Clone, PartialEq, Eq)]
#[allow(non_snake_case)]
pub struct FileUploadElement {
    pub bind: Option<String>,
    pub accept: Option<String>,
    pub maxSize: Option<String>,
    pub multiple: Option<bool>,
    pub onChange: Option<String>,
    pub style: Vec<String>,
}

#[derive(Debug, Clone, PartialEq, Eq)]
#[allow(non_snake_case)]
pub struct ProgressElement {
    pub value: Option<String>,
    pub bind: Option<String>,
    pub max: Option<u32>,
    pub showLabel: Option<bool>,
    pub style: Vec<String>,
}

#[derive(Debug, Clone, PartialEq, Eq)]
#[allow(non_snake_case)]
pub struct ToggleElement {
    pub label: Option<String>,
    pub bind: Option<String>,
    pub onColor: Option<String>,
    pub offColor: Option<String>,
    pub onChange: Option<String>,
    pub style: Vec<String>,
}

#[derive(Debug, Clone, PartialEq, Eq)]
pub struct TabItem {
    pub value: String,
    pub label: Option<String>,
    pub icon: Option<String>,
}

#[derive(Debug, Clone, PartialEq, Eq)]
#[allow(non_snake_case)]
pub struct TabsElement {
    pub label: Option<String>,
    pub bind: Option<String>,
    pub options: Vec<TabItem>,
    pub onChange: Option<String>,
    pub style: Vec<String>,
}

#[derive(Debug, Clone, PartialEq, Eq)]
pub struct AccordionItem {
    pub title: String,
    pub content: String,
    pub icon: Option<String>,
}

#[derive(Debug, Clone, PartialEq, Eq)]
pub struct AccordionElement {
    pub multiple: Option<bool>,
    pub items: Vec<AccordionItem>,
    pub style: Vec<String>,
}

#[derive(Debug, PartialEq, Eq)]
#[allow(non_snake_case)]
pub struct DialogElement {
    pub title: Option<String>,
    pub open: Option<String>,
    pub onClose: Option<String>,
    pub children: Vec<Element>,
    pub style: Vec<String>,
}

#[derive(Debug, Clone, PartialEq, Eq)]
pub struct BadgeElement {
    pub content: String,
    pub variant: Option<String>,
    pub style: Vec<String>,
}

#[derive(Debug, Clone, PartialEq, Eq)]
#[allow(non_snake_case)]
pub struct TagElement {
    pub content: String,
    pub removable: Option<bool>,
    pub onRemove: Option<String>,
    pub style: Vec<String>,
}

#[derive(Debug, Clone, PartialEq, Eq)]
#[allow(non_snake_case)]
pub struct AlertElement {
    pub content: String,
    pub alertType: Option<String>,
    pub dismissible: Option<bool>,
    pub onDismiss: Option<String>,
    pub style: Vec<String>,
}

#[derive(Debug, Clone, PartialEq, Eq)]
pub struct SpinnerElement {
    pub size: Option<String>,
    pub label: Option<String>,
    pub style: Vec<String>,
}

#[derive(Debug, Clone, PartialEq, Eq)]
#[allow(non_snake_case)]
pub struct CounterElement {
    pub bind: Option<String>,
    pub min: Option<i32>,
    pub max: Option<i32>,
    pub step: Option<i32>,
    pub onChange: Option<String>,
    pub style: Vec<String>,
}

#[derive(Debug, Clone, PartialEq, Eq)]
#[allow(non_snake_case)]
pub struct SearchInputElement {
    pub bind: Option<String>,
    pub placeholder: Option<String>,
    pub clearable: Option<bool>,
    pub onSearch: Option<String>,
    pub onChange: Option<String>,
    pub style: Vec<String>,
}

#[derive(Debug, Clone, PartialEq, Eq)]
#[allow(non_snake_case)]
pub struct CopyButtonElement {
    pub content: Option<String>,
    pub text: Option<String>,
    pub onCopy: Option<String>,
    pub style: Vec<String>,
}

#[derive(Debug, Clone, PartialEq, Eq)]
#[allow(non_snake_case)]
pub struct PaginationElement {
    pub bind: Option<String>,
    pub total: Option<u32>,
    pub perPage: Option<u32>,
    pub onChange: Option<String>,
    pub style: Vec<String>,
}

#[derive(Debug, Clone, PartialEq, Eq)]
pub struct BreadcrumbItem {
    pub label: String,
    pub href: Option<String>,
}

#[derive(Debug, Clone, PartialEq, Eq)]
pub struct BreadcrumbElement {
    pub items: Vec<BreadcrumbItem>,
    pub style: Vec<String>,
}

#[derive(Debug, Clone, PartialEq, Eq)]
pub struct AvatarElement {
    pub src: Option<String>,
    pub name: Option<String>,
    pub size: Option<String>,
    pub fallback: Option<String>,
    pub style: Vec<String>,
}

#[derive(Debug, Clone, PartialEq, Eq)]
#[allow(non_snake_case)]
pub struct ChipInputElement {
    pub bind: Option<String>,
    pub suggestions: Vec<String>,
    pub placeholder: Option<String>,
    pub onAdd: Option<String>,
    pub onRemove: Option<String>,
    pub style: Vec<String>,
}

#[derive(Debug, Clone, PartialEq, Eq)]
pub struct NavLink {
    pub label: String,
    pub href: Option<String>,
    pub active: Option<bool>,
}

#[derive(Debug, Clone, PartialEq, Eq)]
pub struct NavElement {
    pub links: Vec<NavLink>,
    pub logo: Option<String>,
    pub sticky: Option<bool>,
    pub transparent: Option<bool>,
    pub style: Vec<String>,
}

#[derive(Debug, Clone, PartialEq, Eq)]
#[allow(non_snake_case)]
pub struct NavigationMenuElement {
    pub items: Vec<NavLink>,
    pub mobileBreakpoint: Option<u32>,
    pub hamburger: Option<bool>,
    pub style: Vec<String>,
    pub mobileStyle: Vec<String>,
}

#[derive(Debug, Clone, PartialEq, Eq)]
pub struct TooltipElement {
    pub content: String,
    pub trigger: Option<String>,
    pub open: Option<String>,
    pub side: Option<String>,
    pub style: Vec<String>,
}

#[derive(Debug, Clone, PartialEq, Eq)]
pub struct PopoverElement {
    pub content: String,
    pub trigger: Option<String>,
    pub open: Option<String>,
    pub side: Option<String>,
    pub title: Option<String>,
    pub style: Vec<String>,
}

#[derive(Debug, Clone, PartialEq, Eq)]
pub struct UrlElement {
    pub href: Option<String>,
    pub content: Option<String>,
    pub target: Option<String>,
    pub placeholder: Option<String>,
    pub bind: Option<String>,
    pub style: Vec<String>,
}

#[derive(Debug, Clone, PartialEq, Eq)]
pub struct EmailElement {
    pub address: Option<String>,
    pub subject: Option<String>,
    pub content: Option<String>,
    pub placeholder: Option<String>,
    pub bind: Option<String>,
    pub style: Vec<String>,
}

#[derive(Debug, PartialEq, Eq)]
pub struct Page {
    pub page_data: PageData,
}

#[derive(Debug, PartialEq, Eq)]
pub struct PageData {
    pub name: String,
    pub layout: Option<Layout>,
    pub style: Vec<String>,
    pub children: Vec<Element>,
    pub state: Vec<StateDefinition>,
    pub css_theme: Option<String>,
    pub css_override: Option<String>,
}

/// A scalar or sequence literal attached to a state definition. A number is
/// carried as its decimal rendering, which the hook declaration splices as a
/// bare numeric literal.
#[derive(Debug, PartialEq, Eq)]
pub enum StateValue {
    Null,
    Bool(bool),
    Num(String),
    Str(String),
    List(Vec<StateValue>),
}

#[derive(Debug, PartialEq, Eq)]
pub struct StateDefinition {
    pub name: String,
    pub value_type: Option<String>,
    pub initial: Option<StateValue>,
}

#[derive(Debug, Clone, PartialEq, Eq)]
pub struct ActionFile {
    pub actions: Vec<ActionDefinition>,
}

#[derive(Debug, Clone, PartialEq, Eq)]
pub struct ActionDefinition {
    pub name: String,
    pub inputs: Vec<String>,
    pub handler: String,
}

#[derive(Debug, Clone, PartialEq, Eq)]
pub struct ProjectConfig {
    pub name: String,
    pub routes: Vec<RouteConfig>,
    pub css_theme: Option<String>,
    pub css_override: Option<String>,
}

#[derive(Debug, Clone, PartialEq, Eq)]
pub struct RouteConfig {
    pub path: String,
    pub page: String,
}

#[derive(Debug, PartialEq, Eq)]
pub struct Document {
    pub pages: Vec<Page>,
}

#[derive(Debug, Clone, PartialEq, Eq)]
pub enum CompileError {
    Parse(String),
    Semantic(String),
    Codegen(String),
    IO(String),
}

impl CompileError {
    /// The diagnostic text of this error.
    pub fn message(&self) -> (r: String)
        ensures
            match *self {
                CompileError::Parse(ref m) => r@ == "YAML parsing error: "@ + m@,
                CompileError::Semantic(ref m) => r@ == "Semantic error: "@ + m@,
                CompileError::Codegen(ref m) => r@ == "Code generation error: "@ + m@,
                CompileError::IO(ref m) => r@ == "IO error: "@ + m@,
            },
    {
        let mut s = match self {
            CompileError::Parse(_) => String::from_str("YAML parsing error: "),
            CompileError::Semantic(_) => String::from_str("Semantic error: "),
            CompileError::Codegen(_) => String::from_str("Code generation error: "),
            CompileError::IO(_) => String::from_str("IO error: "),
        };
        match self {
            CompileError::Parse(m) => s.append(m.as_str()),
            CompileError::Semantic(m) => s.append(m.as_str()),
            CompileError::Codegen(m) => s.append(m.as_str()),
            CompileError::IO(m) => s.append(m.as_str()),
        }
        s
    }
}

} // verus!
