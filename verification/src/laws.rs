//! Laws the library keeps, stated and proved over the spec-level text
//! functions that the generators' contracts use.

use vstd::prelude::*;

use crate::css_processing::{apply_classes, insert_prop, merge_props, resolve_class};
use crate::emit::{
    camel_case, case_shift, has_hamburger_menu, hook_decl_text, hooks_section_text, is_delim,
    page_children_text, page_text, pascal_case, react_import_text, state_literal_text,
};
use crate::model::{PageData, StateDefinition, StateValue};
use crate::text::upper_char;

verus! {

/// A page that declares no state and has no hamburger-requesting
/// navigation-menu child gets no hook declaration line at all, and its
/// import line does not name the state hook.
pub proof fn lemma_stateless_page_has_no_hooks(p: PageData)
    requires
        p.state@.len() == 0,
        !has_hamburger_menu(p.children@),
    ensures
        hooks_section_text(p) == Seq::<char>::empty(),
        react_import_text(p) == "import React from 'react';\n"@,
        page_text(p) == "export default function "@ + pascal_case(p.name@) + "() {\n"@
            + "  return (\n    <>\n"@ + page_children_text(p) + "    </>\n  );\n}\n"@,
{
    assert(page_text(p) =~= "export default function "@ + pascal_case(p.name@) + "() {\n"@
        + "  return (\n    <>\n"@ + page_children_text(p) + "    </>\n  );\n}\n"@);
}

/// The camel-case transform leaves a word without delimiters unchanged.
pub proof fn lemma_camel_case_identity(s: Seq<char>)
    requires
        forall|i: int| 0 <= i < s.len() ==> !is_delim(#[trigger] s[i]),
    ensures
        camel_case(s) == s,
    decreases s.len(),
{
    if s.len() > 0 {
        let t = s.drop_first();
        assert(forall|i: int| 0 <= i < t.len() ==> t[i] == s[i + 1] && !is_delim(#[trigger] t[i]));
        lemma_camel_case_identity(t);
        assert(seq![s[0]] + t =~= s);
    }
}

/// The ASCII uppercase shift is idempotent.
pub proof fn lemma_upper_char_idempotent(c: char)
    ensures
        upper_char(upper_char(c)) == upper_char(c),
{
    if 'a' <= c && c <= 'z' {
        assert(c as u8 >= 97 && c as u8 <= 122);
        assert(upper_char(c) == ((c as u8 - 32) as char));
        assert(!('a' <= upper_char(c) && upper_char(c) <= 'z'));
    }
}

/// The pascal-case transform of a word without delimiters shifts only its
/// first character, so applying it twice changes nothing more: it is
/// idempotent on such words.
pub proof fn lemma_pascal_case_idempotent(s: Seq<char>)
    requires
        forall|i: int| 0 <= i < s.len() ==> !is_delim(#[trigger] s[i]),
    ensures
        pascal_case(s).len() == s.len(),
        pascal_case(pascal_case(s)) == pascal_case(s),
{
    if s.len() == 0 {
    } else {
        let t = s.drop_first();
        assert(forall|i: int| 0 <= i < t.len() ==> t[i] == s[i + 1] && !is_delim(#[trigger] t[i]));
        lemma_camel_case_identity(t);
        assert(pascal_case(s) =~= seq![upper_char(s[0])] + t);
        let p = pascal_case(s);
        assert(!is_delim(upper_char(s[0])));
        assert(p.drop_first() =~= t);
        lemma_upper_char_idempotent(s[0]);
        assert(pascal_case(p) =~= seq![upper_char(upper_char(s[0]))] + t);
    }
}

/// The case transforms treat the three delimiters alike: two inputs that
/// agree except for which delimiter stands at each boundary transform to
/// the same identifier.
pub proof fn lemma_case_shift_delimiters_alike(s: Seq<char>, t: Seq<char>, capitalize: bool)
    requires
        s.len() == t.len(),
        forall|i: int|
            0 <= i < s.len() ==> ((is_delim(#[trigger] s[i]) && is_delim(t[i])) || s[i] == t[i]),
    ensures
        case_shift(s, capitalize) == case_shift(t, capitalize),
    decreases s.len(),
{
    if s.len() > 0 {
        let s2 = s.drop_first();
        let t2 = t.drop_first();
        assert(forall|i: int|
            0 <= i < s2.len() ==> s2[i] == s[i + 1] && t2[i] == t[i + 1] && ((is_delim(
                #[trigger] s2[i],
            ) && is_delim(t2[i])) || s2[i] == t2[i]));
        lemma_case_shift_delimiters_alike(s2, t2, true);
        lemma_case_shift_delimiters_alike(s2, t2, false);
    }
}

/// The first value stored under a property name, or nothing.
pub open spec fn prop_value(props: Seq<(Seq<char>, Seq<char>)>, k: Seq<char>) -> Option<Seq<char>>
    decreases props.len(),
{
    if props.len() == 0 {
        None
    } else if props[0].0 == k {
        Some(props[0].1)
    } else {
        prop_value(props.drop_first(), k)
    }
}

/// Setting one property changes that property's value and no other: the
/// single step every layer of the precedence order is built from.
pub proof fn lemma_insert_prop_value(
    props: Seq<(Seq<char>, Seq<char>)>,
    k: Seq<char>,
    v: Seq<char>,
    k2: Seq<char>,
)
    ensures
        prop_value(insert_prop(props, k, v), k2) == if k2 == k {
            Some(v)
        } else {
            prop_value(props, k2)
        },
    decreases props.len(),
{
    if props.len() == 0 {
        assert(insert_prop(props, k, v) =~= seq![(k, v)]);
        assert(insert_prop(props, k, v).drop_first() =~= Seq::<(Seq<char>, Seq<char>)>::empty());
    } else if props[0].0 == k {
        let r = insert_prop(props, k, v);
        assert(r =~= seq![(k, v)] + props.drop_first());
        assert(r[0] == (k, v));
        assert(r.drop_first() =~= props.drop_first());
    } else {
        let r = insert_prop(props, k, v);
        assert(r =~= seq![props[0]] + insert_prop(props.drop_first(), k, v));
        assert(r[0] == props[0]);
        assert(r.drop_first() =~= insert_prop(props.drop_first(), k, v));
        lemma_insert_prop_value(props.drop_first(), k, v, k2);
    }
}

/// Whether any of the new properties from index `j` on sets the name `k`.
pub open spec fn sets_prop(newp: Seq<(Seq<char>, Seq<char>)>, j: nat, k: Seq<char>) -> bool {
    exists|i: int| j <= i < newp.len() && (#[trigger] newp[i]).0 == k
}

/// Property-level precedence of the merge: a property the override never
/// sets keeps the base theme's value.
pub proof fn lemma_merge_keeps_base_value(
    base: Seq<(Seq<char>, Seq<char>)>,
    newp: Seq<(Seq<char>, Seq<char>)>,
    j: nat,
    k: Seq<char>,
)
    requires
        !sets_prop(newp, j, k),
    ensures
        prop_value(merge_props(base, newp, j), k) == prop_value(base, k),
    decreases newp.len() - j,
{
    if j < newp.len() {
        assert(newp[j as int].0 != k);
        lemma_insert_prop_value(base, newp[j as int].0, newp[j as int].1, k);
        lemma_merge_keeps_base_value(
            insert_prop(base, newp[j as int].0, newp[j as int].1),
            newp,
            j + 1,
            k,
        );
    }
}

/// Property-level precedence of the merge: when the override sets a
/// property, the merged value is the override's (its last setting of that
/// name), whatever the base theme held.
pub proof fn lemma_merge_override_wins(
    base: Seq<(Seq<char>, Seq<char>)>,
    newp: Seq<(Seq<char>, Seq<char>)>,
    j: nat,
    w: int,
)
    requires
        j <= w < newp.len(),
        forall|i: int| w < i < newp.len() ==> (#[trigger] newp[i]).0 != newp[w].0,
    ensures
        prop_value(merge_props(base, newp, j), newp[w].0) == Some(newp[w].1),
    decreases newp.len() - j,
{
    let k = newp[w].0;
    if j as int == w {
        lemma_insert_prop_value(base, k, newp[w].1, k);
        assert(!sets_prop(newp, j + 1, k));
        lemma_merge_keeps_base_value(insert_prop(base, k, newp[w].1), newp, j + 1, k);
    } else {
        lemma_merge_override_wins(
            insert_prop(base, newp[j as int].0, newp[j as int].1),
            newp,
            j + 1,
            w,
        );
    }
}

/// A state definition named `count` with the numeric initial `0` declares
/// exactly the accessor `count` and the mutator `setCount`, initialized
/// to the bare literal `0`.
pub proof fn lemma_count_hook_declaration(sd: StateDefinition)
    requires
        sd.name@ == "count"@,
        sd.initial matches Some(v) && v matches StateValue::Num(n) && n@ == "0"@,
    ensures
        hook_decl_text(sd) == "["@ + camel_case("count"@) + ", set"@ + pascal_case("count"@)
            + "] = useState(0)"@,
        camel_case("count"@) == "count"@,
        pascal_case("count"@) == "Count"@,
{
    reveal_strlit("count");
    reveal_strlit("Count");
    reveal_strlit("0");
    assert(forall|i: int| 0 <= i < "count"@.len() ==> !is_delim(#[trigger] "count"@[i]));
    lemma_camel_case_identity("count"@);
    let s = "count"@;
    let t = s.drop_first();
    assert(forall|i: int| 0 <= i < t.len() ==> t[i] == s[i + 1] && !is_delim(#[trigger] t[i]));
    lemma_camel_case_identity(t);
    assert(pascal_case(s) =~= seq![upper_char('c')] + t);
    assert(upper_char('c') == 'C');
    assert(pascal_case(s) =~= "Count"@);
    assert(state_literal_text(sd.initial) == "0"@);
    reveal_strlit("[");
    reveal_strlit(", ");
    reveal_strlit("set");
    reveal_strlit("] = useState(");
    reveal_strlit(")");
    reveal_strlit(", set");
    reveal_strlit("] = useState(0)");
    assert(hook_decl_text(sd) =~= "["@ + camel_case("count"@) + ", set"@ + pascal_case("count"@)
        + "] = useState(0)"@);
}


/// Whether any of the utility classes from index `j` on resolves to the
/// property name `k`.
pub open spec fn resolves_prop(classes: Seq<Seq<char>>, j: nat, k: Seq<char>) -> bool {
    exists|i: int| j <= i < classes.len() && resolve_class(#[trigger] classes[i]).0 == k
}

/// Property-level precedence of the inline layer: a property no utility
/// class resolves to keeps the value the lower layers gave it.
pub proof fn lemma_inline_keeps_value(
    props: Seq<(Seq<char>, Seq<char>)>,
    classes: Seq<Seq<char>>,
    j: nat,
    k: Seq<char>,
)
    requires
        !resolves_prop(classes, j, k),
    ensures
        prop_value(apply_classes(props, classes, j), k) == prop_value(props, k),
    decreases classes.len() - j,
{
    if j < classes.len() {
        let pv = resolve_class(classes[j as int]);
        assert(pv.0 != k);
        let props2 = if pv.0.len() > 0 {
            insert_prop(props, pv.0, pv.1)
        } else {
            props
        };
        if pv.0.len() > 0 {
            lemma_insert_prop_value(props, pv.0, pv.1, k);
        }
        lemma_inline_keeps_value(props2, classes, j + 1, k);
    }
}

/// Property-level precedence of the inline layer: the last recognized
/// utility class that resolves to a property sets its final value,
/// whatever the base theme and the override theme held.
pub proof fn lemma_inline_wins(
    props: Seq<(Seq<char>, Seq<char>)>,
    classes: Seq<Seq<char>>,
    j: nat,
    w: int,
)
    requires
        j <= w < classes.len(),
        resolve_class(classes[w]).0.len() > 0,
        forall|i: int| w < i < classes.len() ==> resolve_class(#[trigger] classes[i]).0
            != resolve_class(classes[w]).0,
    ensures
        prop_value(apply_classes(props, classes, j), resolve_class(classes[w]).0) == Some(
            resolve_class(classes[w]).1,
        ),
    decreases classes.len() - j,
{
    let k = resolve_class(classes[w]).0;
    if j as int == w {
        lemma_insert_prop_value(props, k, resolve_class(classes[w]).1, k);
        assert(!resolves_prop(classes, j + 1, k));
        lemma_inline_keeps_value(
            insert_prop(props, k, resolve_class(classes[w]).1),
            classes,
            j + 1,
            k,
        );
    } else {
        let pv = resolve_class(classes[j as int]);
        let props2 = if pv.0.len() > 0 {
            insert_prop(props, pv.0, pv.1)
        } else {
            props
        };
        lemma_inline_wins(props2, classes, j + 1, w);
    }
}

} // verus!
