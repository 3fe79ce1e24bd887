//! Binding diagnostics: a `bind` field must name a declared page-state
//! entry, or the generated accessor and mutator would reference
//! identifiers the component never declares. The generators splice such
//! references as they stand, so this check reports them beforehand.

use vstd::prelude::*;

use crate::model::{Element, PageData, StateDefinition};
use crate::text::str_eq;

verus! {

/// The binding name one element carries, when its kind is bindable.
pub open spec fn element_bind(e: Element) -> Option<Seq<char>> {
    match e {
        Element::Input(x) => crate::emit::opt_view(x.bind),
        Element::Checkbox(x) => crate::emit::opt_view(x.bind),
        Element::Slider(x) => crate::emit::opt_view(x.bind),
        Element::Select(x) => crate::emit::opt_view(x.bind),
        Element::RadioGroup(x) => crate::emit::opt_view(x.bind),
        Element::Textarea(x) => crate::emit::opt_view(x.bind),
        Element::DateInput(x) => crate::emit::opt_view(x.bind),
        Element::TimeInput(x) => crate::emit::opt_view(x.bind),
        Element::DateTimeInput(x) => crate::emit::opt_view(x.bind),
        Element::ColorPicker(x) => crate::emit::opt_view(x.bind),
        Element::FileUpload(x) => crate::emit::opt_view(x.bind),
        Element::Progress(x) => crate::emit::opt_view(x.bind),
        Element::Toggle(x) => crate::emit::opt_view(x.bind),
        Element::Tabs(x) => crate::emit::opt_view(x.bind),
        Element::Counter(x) => crate::emit::opt_view(x.bind),
        Element::SearchInput(x) => crate::emit::opt_view(x.bind),
        Element::Pagination(x) => crate::emit::opt_view(x.bind),
        Element::ChipInput(x) => crate::emit::opt_view(x.bind),
        Element::Url(x) => crate::emit::opt_view(x.bind),
        Element::Email(x) => crate::emit::opt_view(x.bind),
        _ => None,
    }
}

/// The children an element recurses into when bindings are gathered.
pub open spec fn collect_binds(e: Element, acc: Seq<Seq<char>>) -> Seq<Seq<char>>
    decreases e, 0int, 0int,
{
    let acc2 = match element_bind(e) {
        Some(b) => acc.push(b),
        None => acc,
    };
    match e {
        Element::Card(x) => collect_binds_list(x.children@, acc2, 0),
        Element::Container(x) => collect_binds_list(x.children@, acc2, 0),
        Element::Layout(x) => collect_binds_list(x.children@, acc2, 0),
        Element::Form(x) => collect_binds_list(x.children@, acc2, 0),
        Element::Fieldset(x) => collect_binds_list(x.children@, acc2, 0),
        Element::Dialog(x) => collect_binds_list(x.children@, acc2, 0),
        _ => acc2,
    }
}

pub open spec fn collect_binds_list(es: Seq<Element>, acc: Seq<Seq<char>>, i: nat) -> Seq<
    Seq<char>,
>
    decreases es, 1int, es.len() - i,
{
    if i >= es.len() {
        acc
    } else {
        collect_binds_list(es, collect_binds(es[i as int], acc), i + 1)
    }
}

/// Whether some state definition declares the name.
pub open spec fn declares_state(states: Seq<StateDefinition>, name: Seq<char>) -> bool {
    exists|i: int| 0 <= i < states.len() && (#[trigger] states[i]).name@ == name
}

/// The binding names of the list that no state definition declares, in
/// the order the tree walk finds them.
pub open spec fn undeclared_of(
    binds: Seq<Seq<char>>,
    states: Seq<StateDefinition>,
    i: nat,
) -> Seq<Seq<char>>
    decreases binds.len() - i,
{
    if i >= binds.len() {
        Seq::empty()
    } else {
        let rest = undeclared_of(binds, states, i + 1);
        if declares_state(states, binds[i as int]) {
            rest
        } else {
            seq![binds[i as int]] + rest
        }
    }
}

/// Every binding name a page's element tree uses that its state list does
/// not declare.
pub open spec fn undeclared_page_bindings(p: PageData) -> Seq<Seq<char>> {
    undeclared_of(collect_binds_list(p.children@, Seq::empty(), 0), p.state@, 0)
}

fn push_bind(acc: &mut Vec<String>, b: &String)
    ensures
        final(acc).deep_view() == old(acc).deep_view().push(b@),
{
    let ghost pre = acc.deep_view();
    acc.push(b.clone());
    proof {
        assert(acc.deep_view() =~= pre.push(b@));
    }
}

#[verifier::rlimit(100)]
#[verifier::spinoff_prover]
fn collect_element_binds(element: &Element, acc: &mut Vec<String>)
    ensures
        final(acc).deep_view() == collect_binds(*element, old(acc).deep_view()),
    decreases *element, 0int,
{
    match element {
        Element::Input(x) => {
            if let Some(b) = &x.bind {
                push_bind(acc, b);
            }
        },
        Element::Checkbox(x) => {
            if let Some(b) = &x.bind {
                push_bind(acc, b);
            }
        },
        Element::Slider(x) => {
            if let Some(b) = &x.bind {
                push_bind(acc, b);
            }
        },
        Element::Select(x) => {
            if let Some(b) = &x.bind {
                push_bind(acc, b);
            }
        },
        Element::RadioGroup(x) => {
            if let Some(b) = &x.bind {
                push_bind(acc, b);
            }
        },
        Element::Textarea(x) => {
            if let Some(b) = &x.bind {
                push_bind(acc, b);
            }
        },
        Element::DateInput(x) => {
            if let Some(b) = &x.bind {
                push_bind(acc, b);
            }
        },
        Element::TimeInput(x) => {
            if let Some(b) = &x.bind {
                push_bind(acc, b);
            }
        },
        Element::DateTimeInput(x) => {
            if let Some(b) = &x.bind {
                push_bind(acc, b);
            }
        },
        Element::ColorPicker(x) => {
            if let Some(b) = &x.bind {
                push_bind(acc, b);
            }
        },
        Element::FileUpload(x) => {
            if let Some(b) = &x.bind {
                push_bind(acc, b);
            }
        },
        Element::Progress(x) => {
            if let Some(b) = &x.bind {
                push_bind(acc, b);
            }
        },
        Element::Toggle(x) => {
            if let Some(b) = &x.bind {
                push_bind(acc, b);
            }
        },
        Element::Tabs(x) => {
            if let Some(b) = &x.bind {
                push_bind(acc, b);
            }
        },
        Element::Counter(x) => {
            if let Some(b) = &x.bind {
                push_bind(acc, b);
            }
        },
        Element::SearchInput(x) => {
            if let Some(b) = &x.bind {
                push_bind(acc, b);
            }
        },
        Element::Pagination(x) => {
            if let Some(b) = &x.bind {
                push_bind(acc, b);
            }
        },
        Element::ChipInput(x) => {
            if let Some(b) = &x.bind {
                push_bind(acc, b);
            }
        },
        Element::Url(x) => {
            if let Some(b) = &x.bind {
                push_bind(acc, b);
            }
        },
        Element::Email(x) => {
            if let Some(b) = &x.bind {
                push_bind(acc, b);
            }
        },
        Element::Card(x) => {
            collect_list_binds(&x.children, acc);
        },
        Element::Container(x) => {
            collect_list_binds(&x.children, acc);
        },
        Element::Layout(x) => {
            collect_list_binds(&x.children, acc);
        },
        Element::Form(x) => {
            collect_list_binds(&x.children, acc);
        },
        Element::Fieldset(x) => {
            collect_list_binds(&x.children, acc);
        },
        Element::Dialog(x) => {
            collect_list_binds(&x.children, acc);
        },
        _ => {},
    }
}

#[verifier::loop_isolation(false)]
fn collect_list_binds(elements: &Vec<Element>, acc: &mut Vec<String>)
    ensures
        final(acc).deep_view() == collect_binds_list(elements@, old(acc).deep_view(), 0),
    decreases elements@, 1int,
{
    let mut i: usize = 0;
    while i < elements.len()
        invariant
            i <= elements.len(),
            collect_binds_list(elements@, old(acc).deep_view(), 0) == collect_binds_list(
                elements@,
                acc.deep_view(),
                i as nat,
            ),
        decreases elements.len() - i,
    {
        collect_element_binds(&elements[i], acc);
        i = i + 1;
    }
}

/// The binding names a page uses that its state list does not declare, in
/// tree order. An empty result says every binding is backed by a state
/// hook; anything else would reference an undeclared accessor in the
/// generated component.
#[verifier::rlimit(100)]
#[verifier::spinoff_prover]
#[verifier::loop_isolation(false)]
pub fn undeclared_bindings(page: &PageData) -> (r: Vec<String>)
    ensures
        r.deep_view() == undeclared_page_bindings(*page),
{
    let mut binds: Vec<String> = Vec::new();
    proof {
        assert(binds.deep_view() =~= Seq::<Seq<char>>::empty());
    }
    collect_list_binds(&page.children, &mut binds);
    let ghost bv = binds.deep_view();
    let mut out: Vec<String> = Vec::new();
    let mut i: usize = binds.len();
    proof {
        assert(out.deep_view() =~= Seq::<Seq<char>>::empty());
        assert(undeclared_of(bv, page.state@, binds@.len() as nat) =~= Seq::<Seq<char>>::empty());
    }
    while i > 0
        invariant
            i <= binds.len(),
            bv == binds.deep_view(),
            out.deep_view() == undeclared_of(bv, page.state@, i as nat),
        decreases i,
    {
        i = i - 1;
        let b = &binds[i];
        let mut declared = false;
        let mut j: usize = 0;
        while j < page.state.len() && !declared
            invariant
                j <= page.state.len(),
                declared ==> declares_state(page.state@, bv[i as int]),
                !declared ==> forall|k: int|
                    0 <= k < j ==> (#[trigger] page.state@[k]).name@ != bv[i as int],
            decreases page.state.len() - j,
        {
            if str_eq(page.state[j].name.as_str(), b.as_str()) {
                declared = true;
            }
            j = j + 1;
        }
        if !declared {
            let ghost pre = out.deep_view();
            out.insert(0, b.clone());
            proof {
                assert(out.deep_view() =~= seq![bv[i as int]] + pre);
            }
        }
    }
    out
}

} // verus!
