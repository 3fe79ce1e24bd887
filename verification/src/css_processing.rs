//! The style resolver: a minimal CSS-subset parser, the property-level
//! merge of a base theme with an override theme, and the application of
//! per-element utility classes. Precedence is strictly layered: inline
//! utility classes over the override theme over the base theme, applied
//! property by property.

use vstd::prelude::*;

use crate::model::{ContainerElement, Document, Element, PageData};
use crate::text::{lines_text, split_lines, str_eq, trim_semicolons, trim_semicolons_back, trim_str, trim_text};

verus! {

/// One parsed rule: a selector and its ordered property mapping.
#[derive(Debug, PartialEq, Eq)]
pub struct CssRule {
    pub selector: String,
    pub properties: Vec<(String, String)>,
    pub is_pseudo: bool,
}

#[derive(Debug, PartialEq, Eq)]
pub struct ProcessedCss {
    pub rules: Vec<CssRule>,
    pub import_statements: Vec<String>,
}

/// The mathematical model of a property list.
pub open spec fn prop_views(props: Seq<(String, String)>) -> Seq<(Seq<char>, Seq<char>)> {
    props.map_values(|p: (String, String)| (p.0@, p.1@))
}

/// The mathematical model of one rule.
pub open spec fn rule_view(r: CssRule) -> (Seq<char>, Seq<(Seq<char>, Seq<char>)>, bool) {
    (r.selector@, prop_views(r.properties@), r.is_pseudo)
}

pub open spec fn rules_view(rs: Seq<CssRule>) -> Seq<(Seq<char>, Seq<(Seq<char>, Seq<char>)>, bool)> {
    rs.map_values(|r: CssRule| rule_view(r))
}

/// The index of the first colon at or after `i`, or the length.
pub open spec fn first_colon(s: Seq<char>, i: int) -> int
    decreases s.len() - i,
{
    if i < 0 || i >= s.len() {
        s.len() as int
    } else if s[i] == ':' {
        i
    } else {
        first_colon(s, i + 1)
    }
}

proof fn lemma_first_colon(s: Seq<char>, j: int)
    requires
        0 <= j <= s.len(),
        forall|k: int| 0 <= k < j ==> s[k] != ':',
        j < s.len() ==> s[j] == ':',
    ensures
        first_colon(s, 0) == j,
{
    lemma_first_colon_from(s, 0, j);
}

proof fn lemma_first_colon_from(s: Seq<char>, i: int, j: int)
    requires
        0 <= i <= j <= s.len(),
        forall|k: int| i <= k < j ==> s[k] != ':',
        j < s.len() ==> s[j] == ':',
    ensures
        first_colon(s, i) == j,
    decreases j - i,
{
    if i < j {
        lemma_first_colon_from(s, i + 1, j);
    }
}

/// The normalized selector under which rules are matched: the text before
/// the first pseudo-class marker, trimmed.
pub open spec fn selector_key(s: Seq<char>) -> Seq<char> {
    trim_text(s.take(first_colon(s, 0)))
}

/// Sets a property: the first entry with the same name is replaced in
/// place; a new name is appended.
pub open spec fn insert_prop(
    props: Seq<(Seq<char>, Seq<char>)>,
    k: Seq<char>,
    v: Seq<char>,
) -> Seq<(Seq<char>, Seq<char>)>
    decreases props.len(),
{
    if props.len() == 0 {
        seq![(k, v)]
    } else if props[0].0 == k {
        seq![(k, v)] + props.drop_first()
    } else {
        seq![props[0]] + insert_prop(props.drop_first(), k, v)
    }
}

proof fn lemma_insert_prop_at(pv: Seq<(Seq<char>, Seq<char>)>, k: Seq<char>, v: Seq<char>, i: int)
    requires
        0 <= i < pv.len(),
        pv[i].0 == k,
        forall|j: int| 0 <= j < i ==> pv[j].0 != k,
    ensures
        insert_prop(pv, k, v) == pv.update(i, (k, v)),
    decreases i,
{
    if i == 0 {
        assert(insert_prop(pv, k, v) =~= pv.update(0, (k, v)));
    } else {
        let t = pv.drop_first();
        assert(forall|j: int| 0 <= j < i - 1 ==> t[j] == pv[j + 1] && t[j].0 != k);
        lemma_insert_prop_at(t, k, v, i - 1);
        assert(seq![pv[0]] + t.update(i - 1, (k, v)) =~= pv.update(i, (k, v)));
    }
}

proof fn lemma_insert_prop_append(pv: Seq<(Seq<char>, Seq<char>)>, k: Seq<char>, v: Seq<char>)
    requires
        forall|j: int| 0 <= j < pv.len() ==> pv[j].0 != k,
    ensures
        insert_prop(pv, k, v) == pv.push((k, v)),
    decreases pv.len(),
{
    if pv.len() == 0 {
        assert(insert_prop(pv, k, v) =~= pv.push((k, v)));
    } else {
        let t = pv.drop_first();
        assert(forall|j: int| 0 <= j < t.len() ==> t[j] == pv[j + 1] && t[j].0 != k);
        lemma_insert_prop_append(t, k, v);
        assert(seq![pv[0]] + t.push((k, v)) =~= pv.push((k, v)));
    }
}

/// Sets a property on an ordered property list, as `insert_prop` says.
fn insert_prop_exec(props: &mut Vec<(String, String)>, k: String, v: String)
    ensures
        prop_views(final(props)@) == insert_prop(prop_views(old(props)@), k@, v@),
{
    let ghost pv = prop_views(props@);
    let mut i: usize = 0;
    while i < props.len()
        invariant
            i <= props.len(),
            pv == prop_views(props@),
            pv == prop_views(old(props)@),
            forall|j: int| 0 <= j < i ==> pv[j].0 != k@,
        decreases props.len() - i,
    {
        if str_eq(props[i].0.as_str(), k.as_str()) {
            proof {
                assert(pv[i as int].0 == k@);
                lemma_insert_prop_at(pv, k@, v@, i as int);
            }
            let ghost kv = k@;
            let ghost vv = v@;
            props.set(i, (k, v));
            proof {
                assert(prop_views(props@) =~~= pv.update(i as int, (kv, vv)));
            }
            return ;
        }
        i = i + 1;
    }
    proof {
        lemma_insert_prop_append(pv, k@, v@);
    }
    let ghost kv = k@;
    let ghost vv = v@;
    props.push((k, v));
    proof {
        assert(prop_views(props@) =~~= pv.push((kv, vv)));
    }
}

/// One step of the line-based parser. The state is the rules parsed so
/// far, the open selector with its accumulated properties, whether a rule
/// block is open, and whether its selector carries a pseudo-class marker.
pub open spec fn parse_step(
    st: (Seq<(Seq<char>, Seq<(Seq<char>, Seq<char>)>, bool)>, Seq<char>, Seq<
        (Seq<char>, Seq<char>),
    >, bool, bool),
    line: Seq<char>,
) -> (Seq<(Seq<char>, Seq<(Seq<char>, Seq<char>)>, bool)>, Seq<char>, Seq<(Seq<char>, Seq<char>)>, bool, bool) {
    let t = trim_text(line);
    if t.len() == 0 {
        if st.3 && st.1.len() > 0 {
            (st.0.push((st.1, st.2, st.4)), Seq::empty(), Seq::empty(), false, false)
        } else {
            st
        }
    } else if t.len() >= 2 && t[0] == '/' && t[1] == '*' {
        st
    } else if t.last() == '{' {
        (
            st.0,
            trim_text(t.take(t.len() - 1)),
            Seq::empty(),
            true,
            first_colon(t, 0) < t.len(),
        )
    } else if t.last() == '}' {
        if st.3 && st.1.len() > 0 {
            (st.0.push((st.1, st.2, st.4)), Seq::empty(), Seq::empty(), false, false)
        } else {
            st
        }
    } else if st.3 {
        let ci = first_colon(t, 0);
        if ci < t.len() {
            let prop = trim_text(t.take(ci));
            let value = trim_text(trim_semicolons_back(t.skip(ci + 1)));
            (st.0, st.1, insert_prop(st.2, prop, value), st.3, st.4)
        } else {
            st
        }
    } else {
        st
    }
}

pub open spec fn parse_lines(
    lines: Seq<Seq<char>>,
    st: (Seq<(Seq<char>, Seq<(Seq<char>, Seq<char>)>, bool)>, Seq<char>, Seq<
        (Seq<char>, Seq<char>),
    >, bool, bool),
    i: nat,
) -> (Seq<(Seq<char>, Seq<(Seq<char>, Seq<char>)>, bool)>, Seq<char>, Seq<(Seq<char>, Seq<char>)>, bool, bool)
    decreases lines.len() - i,
{
    if i >= lines.len() {
        st
    } else {
        parse_lines(lines, parse_step(st, lines[i as int]), i + 1)
    }
}

/// The rules a CSS text parses to: blocks delimited by braces, one
/// selector per block, `property: value;` lines, blank lines closing an
/// open block, comment lines skipped; an unterminated final block is
/// dropped.
pub open spec fn parse_css_text(content: Seq<char>) -> Seq<
    (Seq<char>, Seq<(Seq<char>, Seq<char>)>, bool),
> {
    parse_lines(
        lines_text(content),
        (Seq::empty(), Seq::empty(), Seq::empty(), false, false),
        0,
    ).0
}

/// Parses a CSS text into its rules; malformed lines are skipped, never an
/// error, so parsing always succeeds.
#[verifier::rlimit(100)]
#[verifier::spinoff_prover]
pub fn parse_css(content: &str) -> (r: Result<Vec<CssRule>, String>)
    ensures
        r matches Ok(v) && rules_view(v@) == parse_css_text(content@),
{
    let lines = split_lines(content);
    let ghost lv = lines.deep_view();
    let mut rules: Vec<CssRule> = Vec::new();
    let mut cur_sel = String::new();
    let mut cur_props: Vec<(String, String)> = Vec::new();
    let mut in_rule = false;
    let mut is_pseudo = false;
    let mut i: usize = 0;
    proof {
        assert(rules_view(rules@) =~= Seq::<(Seq<char>, Seq<(Seq<char>, Seq<char>)>, bool)>::empty());
        assert(prop_views(cur_props@) =~= Seq::<(Seq<char>, Seq<char>)>::empty());
    }
    while i < lines.len()
        invariant
            i <= lines.len(),
            lv == lines.deep_view(),
            parse_lines(
                lv,
                (Seq::empty(), Seq::empty(), Seq::empty(), false, false),
                0,
            ) == parse_lines(
                lv,
                (rules_view(rules@), cur_sel@, prop_views(cur_props@), in_rule, is_pseudo),
                i as nat,
            ),
        decreases lines.len() - i,
    {
        let ghost st = (rules_view(rules@), cur_sel@, prop_views(cur_props@), in_rule, is_pseudo);
        let ghost line = lv[i as int];
        let lt = trim_str(lines[i].as_str());
        let n = lt.unicode_len();
        if n == 0 {
            if in_rule && !cur_sel.as_str().is_empty() {
                let done_sel = cur_sel;
                let done_props = cur_props;
                cur_sel = String::new();
                cur_props = Vec::new();
                let ghost old_rules = rules_view(rules@);
                let ghost done = (done_sel@, prop_views(done_props@), is_pseudo);
                rules.push(
                    CssRule { selector: done_sel, properties: done_props, is_pseudo: is_pseudo },
                );
                in_rule = false;
                is_pseudo = false;
                proof {
                    assert(rules_view(rules@) =~= old_rules.push(done));
                    assert(prop_views(cur_props@) =~= Seq::<(Seq<char>, Seq<char>)>::empty());
                }
            }
        } else if n >= 2 && lt.get_char(0) == '/' && lt.get_char(1) == '*' {
        } else if lt.get_char(n - 1) == '{' {
            let head = lt.substring_char(0, n - 1);
            let sel = trim_str(head);
            cur_sel = sel.to_owned();
            cur_props = Vec::new();
            in_rule = true;
            is_pseudo = find_colon(lt).is_some();
            proof {
                assert(head@ =~= trim_text(line).take(trim_text(line).len() - 1));
                assert(prop_views(cur_props@) =~= Seq::<(Seq<char>, Seq<char>)>::empty());
            }
        } else if lt.get_char(n - 1) == '}' {
            if in_rule && !cur_sel.as_str().is_empty() {
                let done_sel = cur_sel;
                let done_props = cur_props;
                cur_sel = String::new();
                cur_props = Vec::new();
                let ghost old_rules = rules_view(rules@);
                let ghost done = (done_sel@, prop_views(done_props@), is_pseudo);
                rules.push(
                    CssRule { selector: done_sel, properties: done_props, is_pseudo: is_pseudo },
                );
                in_rule = false;
                is_pseudo = false;
                proof {
                    assert(rules_view(rules@) =~= old_rules.push(done));
                    assert(prop_views(cur_props@) =~= Seq::<(Seq<char>, Seq<char>)>::empty());
                }
            }
        } else if in_rule {
            if let Some(ci) = find_colon(lt) {
                let head = lt.substring_char(0, ci);
                let prop = trim_str(head).to_owned();
                let tail = lt.substring_char(ci + 1, n);
                let value = trim_str(trim_semicolons(tail)).to_owned();
                proof {
                    assert(head@ =~= trim_text(line).take(ci as int));
                    assert(tail@ =~= trim_text(line).skip(ci + 1));
                }
                insert_prop_exec(&mut cur_props, prop, value);
            }
        }
        proof {
            assert((rules_view(rules@), cur_sel@, prop_views(cur_props@), in_rule, is_pseudo)
                == parse_step(st, line));
        }
        i = i + 1;
    }
    Ok(rules)
}

/// The first colon of the slice, when it has one.
fn find_colon(s: &str) -> (r: Option<usize>)
    ensures
        match r {
            Some(i) => i as int == first_colon(s@, 0) && i < s@.len(),
            None => first_colon(s@, 0) == s@.len(),
        },
{
    let r = crate::text::find_char(s, ':');
    proof {
        match r {
            Some(i) => {
                lemma_first_colon(s@, i as int);
            },
            None => {
                lemma_first_colon(s@, s@.len() as int);
            },
        }
    }
    r
}

/// Normalizes a selector for matching: the text before the first
/// pseudo-class marker, trimmed.
pub fn format_selector_key(selector: &str) -> (r: String)
    ensures
        r@ == selector_key(selector@),
{
    let n = selector.unicode_len();
    let cut = match find_colon(selector) {
        Some(i) => i,
        None => n,
    };
    let head = selector.substring_char(0, cut);
    let r = trim_str(head);
    proof {
        assert(head@ =~= selector@.take(first_colon(selector@, 0)));
    }
    r.to_owned()
}


/// Replaces or appends each new property in order: the override's values
/// win property by property.
pub open spec fn merge_props(
    base: Seq<(Seq<char>, Seq<char>)>,
    newp: Seq<(Seq<char>, Seq<char>)>,
    j: nat,
) -> Seq<(Seq<char>, Seq<char>)>
    decreases newp.len() - j,
{
    if j >= newp.len() {
        base
    } else {
        merge_props(insert_prop(base, newp[j as int].0, newp[j as int].1), newp, j + 1)
    }
}

/// The first rule whose normalized selector matches the key, or the length
/// when none does.
pub open spec fn find_rule(
    rules: Seq<(Seq<char>, Seq<(Seq<char>, Seq<char>)>, bool)>,
    key: Seq<char>,
    i: nat,
) -> int
    decreases rules.len() - i,
{
    if i >= rules.len() {
        rules.len() as int
    } else if selector_key(rules[i as int].0) == key {
        i as int
    } else {
        find_rule(rules, key, i + 1)
    }
}

proof fn lemma_find_rule(
    rules: Seq<(Seq<char>, Seq<(Seq<char>, Seq<char>)>, bool)>,
    key: Seq<char>,
    i: nat,
    j: nat,
)
    requires
        i <= j <= rules.len(),
        forall|k: int| i <= k < j ==> selector_key(#[trigger] rules[k].0) != key,
        j < rules.len() ==> selector_key(rules[j as int].0) == key,
    ensures
        find_rule(rules, key, i) == if j < rules.len() {
            j as int
        } else {
            rules.len() as int
        },
    decreases j - i,
{
    if i < j {
        lemma_find_rule(rules, key, i + 1, j);
    }
}

/// Merges one override rule: on a selector-key collision the override's
/// properties replace same-named base properties and add new ones; a rule
/// with a fresh key is appended.
pub open spec fn merge_rule(
    rules: Seq<(Seq<char>, Seq<(Seq<char>, Seq<char>)>, bool)>,
    r: (Seq<char>, Seq<(Seq<char>, Seq<char>)>, bool),
) -> Seq<(Seq<char>, Seq<(Seq<char>, Seq<char>)>, bool)> {
    let i = find_rule(rules, selector_key(r.0), 0);
    if 0 <= i < rules.len() {
        rules.update(i, (rules[i].0, merge_props(rules[i].1, r.1, 0), rules[i].2))
    } else {
        rules.push(r)
    }
}

pub open spec fn merge_rules_from(
    rules: Seq<(Seq<char>, Seq<(Seq<char>, Seq<char>)>, bool)>,
    ov: Seq<(Seq<char>, Seq<(Seq<char>, Seq<char>)>, bool)>,
    i: nat,
) -> Seq<(Seq<char>, Seq<(Seq<char>, Seq<char>)>, bool)>
    decreases ov.len() - i,
{
    if i >= ov.len() {
        rules
    } else {
        merge_rules_from(merge_rule(rules, ov[i as int]), ov, i + 1)
    }
}

fn clone_props(props: &Vec<(String, String)>) -> (r: Vec<(String, String)>)
    ensures
        prop_views(r@) == prop_views(props@),
{
    let mut out: Vec<(String, String)> = Vec::new();
    let mut i: usize = 0;
    while i < props.len()
        invariant
            i <= props.len(),
            prop_views(out@) == prop_views(props@).take(i as int),
        decreases props.len() - i,
    {
        let ghost pre = prop_views(out@);
        out.push((props[i].0.clone(), props[i].1.clone()));
        proof {
            assert(prop_views(out@) =~= pre.push(prop_views(props@)[i as int]));
            assert(prop_views(props@).take(i + 1) =~= prop_views(props@).take(i as int).push(
                prop_views(props@)[i as int],
            ));
        }
        i = i + 1;
    }
    proof {
        assert(prop_views(props@).take(props@.len() as int) =~= prop_views(props@));
    }
    out
}

fn clone_rule(r: &CssRule) -> (out: CssRule)
    ensures
        rule_view(out) == rule_view(*r),
{
    CssRule {
        selector: r.selector.clone(),
        properties: clone_props(&r.properties),
        is_pseudo: r.is_pseudo,
    }
}

/// Merges an override stylesheet into the base rules, keyed by normalized
/// selector; override property values win.
#[verifier::rlimit(100)]
#[verifier::spinoff_prover]
#[verifier::loop_isolation(false)]
pub fn merge_css_rules(base_rules: Vec<CssRule>, override_css: &str) -> (r: Vec<CssRule>)
    ensures
        rules_view(r@) == merge_rules_from(
            rules_view(base_rules@),
            parse_css_text(override_css@),
            0,
        ),
{
    let override_rules = match parse_css(override_css) {
        Ok(v) => v,
        Err(_) => {
            proof {
                assert(false);
            }
            Vec::new()
        },
    };
    let ghost b0 = rules_view(base_rules@);
    let ghost ov = rules_view(override_rules@);
    let mut rules = base_rules;
    let mut i: usize = 0;
    while i < override_rules.len()
        invariant
            i <= override_rules.len(),
            ov == rules_view(override_rules@),
            merge_rules_from(b0, ov, 0) == merge_rules_from(rules_view(rules@), ov, i as nat),
        decreases override_rules.len() - i,
    {
        let ghost pre = rules_view(rules@);
        let orule = &override_rules[i];
        let rk = format_selector_key(orule.selector.as_str());
        let mut j: usize = 0;
        let mut found: Option<usize> = None;
        while j < rules.len() && found.is_none()
            invariant
                j <= rules.len(),
                pre == rules_view(rules@),
                match found {
                    Some(f) => f < rules@.len() && j == f + 1 && selector_key(pre[f as int].0)
                        == rk@ && forall|k: int|
                        0 <= k < f ==> selector_key(#[trigger] pre[k].0) != rk@,
                    None => forall|k: int| 0 <= k < j ==> selector_key(#[trigger] pre[k].0) != rk@,
                },
            decreases rules.len() - j,
        {
            let bk = format_selector_key(rules[j].selector.as_str());
            if str_eq(bk.as_str(), rk.as_str()) {
                found = Some(j);
            }
            j = j + 1;
        }
        match found {
            Some(f) => {
                proof {
                    lemma_find_rule(pre, rk@, 0, f as nat);
                }
                let ghost seq_before = rules@;
                let mut target = rules.remove(f);
                let ghost t0 = prop_views(target.properties@);
                proof {
                    assert(target == seq_before[f as int]);
                }
                let mut p: usize = 0;
                while p < orule.properties.len()
                    invariant
                        p <= orule.properties.len(),
                        ov == rules_view(override_rules@),
                        i < override_rules@.len(),
                        target.selector == seq_before[f as int].selector,
                        target.is_pseudo == seq_before[f as int].is_pseudo,
                        merge_props(t0, ov[i as int].1, 0) == merge_props(
                            prop_views(target.properties@),
                            ov[i as int].1,
                            p as nat,
                        ),
                    decreases orule.properties.len() - p,
                {
                    let k = orule.properties[p].0.clone();
                    let v = orule.properties[p].1.clone();
                    insert_prop_exec(&mut target.properties, k, v);
                    p = p + 1;
                }
                let ghost merged = rule_view(target);
                rules.insert(f, target);
                proof {
                    let fi = f as int;
                    assert(rules@ =~= seq_before.update(fi, target));
                    assert(rules_view(rules@) =~= pre.update(fi, merged));
                    assert(merged == (pre[fi].0, merge_props(pre[fi].1, ov[i as int].1, 0), pre[fi].2));
                }
            },
            None => {
                proof {
                    lemma_find_rule(pre, rk@, 0, rules@.len() as nat);
                }
                let copied = clone_rule(orule);
                rules.push(copied);
                proof {
                    assert(rules_view(rules@) =~= pre.push(ov[i as int]));
                }
            },
        }
        i = i + 1;
    }
    rules
}

/// The CSS property and value a utility-class token translates to; an
/// unrecognized token translates to nothing and is dropped.
pub open spec fn resolve_class(c: Seq<char>) -> (Seq<char>, Seq<char>) {
    if c == "text-sm"@ {
        ("font-size"@, "0.875rem"@)
    } else if c == "text-base"@ {
        ("font-size"@, "1rem"@)
    } else if c == "text-lg"@ {
        ("font-size"@, "1.125rem"@)
    } else if c == "text-xl"@ {
        ("font-size"@, "1.25rem"@)
    } else if c == "text-2xl"@ {
        ("font-size"@, "1.5rem"@)
    } else if c == "text-3xl"@ {
        ("font-size"@, "1.875rem"@)
    } else if c == "text-4xl"@ {
        ("font-size"@, "2.25rem"@)
    } else if c == "text-5xl"@ {
        ("font-size"@, "3rem"@)
    } else if c == "font-normal"@ {
        ("font-weight"@, "400"@)
    } else if c == "font-medium"@ {
        ("font-weight"@, "500"@)
    } else if c == "font-semibold"@ {
        ("font-weight"@, "600"@)
    } else if c == "font-bold"@ {
        ("font-weight"@, "700"@)
    } else if c == "text-center"@ {
        ("text-align"@, "center"@)
    } else if c == "text-left"@ {
        ("text-align"@, "left"@)
    } else if c == "text-right"@ {
        ("text-align"@, "right"@)
    } else if c == "text-white"@ {
        ("color"@, "#ffffff"@)
    } else if c == "text-black"@ {
        ("color"@, "#000000"@)
    } else if c == "text-gray-300"@ {
        ("color"@, "#d1d5db"@)
    } else if c == "text-gray-400"@ {
        ("color"@, "#9ca3af"@)
    } else if c == "text-gray-500"@ {
        ("color"@, "#6b7280"@)
    } else if c == "text-gray-600"@ {
        ("color"@, "#4b5563"@)
    } else if c == "text-gray-700"@ {
        ("color"@, "#374151"@)
    } else if c == "text-gray-900"@ {
        ("color"@, "#111827"@)
    } else if c == "text-blue-400"@ {
        ("color"@, "#60a5fa"@)
    } else if c == "text-blue-500"@ {
        ("color"@, "#3b82f6"@)
    } else if c == "text-blue-600"@ {
        ("color"@, "#2563eb"@)
    } else if c == "text-cyan-400"@ {
        ("color"@, "#22d3ee"@)
    } else if c == "text-orange-500"@ {
        ("color"@, "#f97316"@)
    } else if c == "text-green-400"@ {
        ("color"@, "#4ade80"@)
    } else if c == "text-yellow-400"@ {
        ("color"@, "#facc15"@)
    } else if c == "bg-white"@ {
        ("background-color"@, "#ffffff"@)
    } else if c == "bg-black"@ {
        ("background-color"@, "#000000"@)
    } else if c == "bg-gray-50"@ {
        ("background-color"@, "#f9fafb"@)
    } else if c == "bg-gray-100"@ {
        ("background-color"@, "#f3f4f6"@)
    } else if c == "bg-gray-200"@ {
        ("background-color"@, "#e5e7eb"@)
    } else if c == "bg-gray-800"@ {
        ("background-color"@, "#1f2937"@)
    } else if c == "bg-gray-900"@ {
        ("background-color"@, "#111827"@)
    } else if c == "bg-blue-500"@ {
        ("background-color"@, "#3b82f6"@)
    } else if c == "bg-blue-600"@ {
        ("background-color"@, "#2563eb"@)
    } else if c == "bg-blue-700"@ {
        ("background-color"@, "#1d4ed8"@)
    } else if c == "bg-green-400"@ {
        ("background-color"@, "#4ade80"@)
    } else if c == "p-1"@ {
        ("padding"@, "0.25rem"@)
    } else if c == "p-2"@ {
        ("padding"@, "0.5rem"@)
    } else if c == "p-3"@ {
        ("padding"@, "0.75rem"@)
    } else if c == "p-4"@ {
        ("padding"@, "1rem"@)
    } else if c == "p-6"@ {
        ("padding"@, "1.5rem"@)
    } else if c == "px-2"@ {
        ("padding-left"@, "0.5rem"@)
    } else if c == "px-3"@ {
        ("padding-left"@, "0.75rem"@)
    } else if c == "px-4"@ {
        ("padding-left"@, "1rem"@)
    } else if c == "px-6"@ {
        ("padding-left"@, "1.5rem"@)
    } else if c == "px-8"@ {
        ("padding-left"@, "2rem"@)
    } else if c == "py-1"@ {
        ("padding-top"@, "0.25rem"@)
    } else if c == "py-2"@ {
        ("padding-top"@, "0.5rem"@)
    } else if c == "py-3"@ {
        ("padding-top"@, "0.75rem"@)
    } else if c == "py-4"@ {
        ("padding-top"@, "1rem"@)
    } else if c == "py-12"@ {
        ("padding-top"@, "3rem"@)
    } else if c == "py-16"@ {
        ("padding-top"@, "4rem"@)
    } else if c == "py-20"@ {
        ("padding-top"@, "5rem"@)
    } else if c == "mb-1"@ {
        ("margin-bottom"@, "0.25rem"@)
    } else if c == "mb-2"@ {
        ("margin-bottom"@, "0.5rem"@)
    } else if c == "mb-3"@ {
        ("margin-bottom"@, "0.75rem"@)
    } else if c == "mb-4"@ {
        ("margin-bottom"@, "1rem"@)
    } else if c == "mb-6"@ {
        ("margin-bottom"@, "1.5rem"@)
    } else if c == "mb-8"@ {
        ("margin-bottom"@, "2rem"@)
    } else if c == "mt-2"@ {
        ("margin-top"@, "0.5rem"@)
    } else if c == "mt-4"@ {
        ("margin-top"@, "1rem"@)
    } else if c == "mt-6"@ {
        ("margin-top"@, "1.5rem"@)
    } else if c == "mt-12"@ {
        ("margin-top"@, "3rem"@)
    } else if c == "mx-auto"@ {
        ("margin-left"@, "auto"@)
    } else if c == "flex"@ {
        ("display"@, "flex"@)
    } else if c == "inline-flex"@ {
        ("display"@, "inline-flex"@)
    } else if c == "flex-row"@ {
        ("flex-direction"@, "row"@)
    } else if c == "flex-col"@ {
        ("flex-direction"@, "column"@)
    } else if c == "flex-wrap"@ {
        ("flex-wrap"@, "wrap"@)
    } else if c == "items-center"@ {
        ("align-items"@, "center"@)
    } else if c == "items-start"@ {
        ("align-items"@, "flex-start"@)
    } else if c == "items-end"@ {
        ("align-items"@, "flex-end"@)
    } else if c == "justify-center"@ {
        ("justify-content"@, "center"@)
    } else if c == "justify-between"@ {
        ("justify-content"@, "space-between"@)
    } else if c == "justify-end"@ {
        ("justify-content"@, "flex-end"@)
    } else if c == "gap-1"@ {
        ("gap"@, "0.25rem"@)
    } else if c == "gap-2"@ {
        ("gap"@, "0.5rem"@)
    } else if c == "gap-3"@ {
        ("gap"@, "0.75rem"@)
    } else if c == "gap-4"@ {
        ("gap"@, "1rem"@)
    } else if c == "gap-6"@ {
        ("gap"@, "1.5rem"@)
    } else if c == "gap-8"@ {
        ("gap"@, "2rem"@)
    } else if c == "flex-1"@ {
        ("flex"@, "1 1 0%"@)
    } else if c == "border"@ {
        ("border-width"@, "1px"@)
    } else if c == "border-2"@ {
        ("border-width"@, "2px"@)
    } else if c == "rounded"@ {
        ("border-radius"@, "0.25rem"@)
    } else if c == "rounded-lg"@ {
        ("border-radius"@, "0.5rem"@)
    } else if c == "rounded-xl"@ {
        ("border-radius"@, "0.75rem"@)
    } else if c == "rounded-full"@ {
        ("border-radius"@, "9999px"@)
    } else if c == "w-5"@ {
        ("width"@, "1.25rem"@)
    } else if c == "h-5"@ {
        ("height"@, "1.25rem"@)
    } else if c == "min-w-280"@ {
        ("min-width"@, "70rem"@)
    } else if c == "max-w-2xl"@ {
        ("max-width"@, "42rem"@)
    } else if c == "max-w-4xl"@ {
        ("max-width"@, "56rem"@)
    } else if c == "shadow-lg"@ {
        ("box-shadow"@, "0 10px 15px -3px rgb(0 0 0 / 0.1)"@)
    } else if c == "cursor-pointer"@ {
        ("cursor"@, "pointer"@)
    } else if c == "overflow-hidden"@ {
        ("overflow"@, "hidden"@)
    } else if c == "text-decoration-none"@ {
        ("text-decoration"@, "none"@)
    } else {
        (Seq::empty(), Seq::empty())
    }
}

/// Translates one utility-class token, as `resolve_class` says.
pub fn resolve_utility_class(class: &str) -> (r: (String, String))
    ensures
        r.0@ == resolve_class(class@).0,
        r.1@ == resolve_class(class@).1,
{
    if str_eq(class, "text-sm") {
        (String::from_str("font-size"), String::from_str("0.875rem"))
    } else if str_eq(class, "text-base") {
        (String::from_str("font-size"), String::from_str("1rem"))
    } else if str_eq(class, "text-lg") {
        (String::from_str("font-size"), String::from_str("1.125rem"))
    } else if str_eq(class, "text-xl") {
        (String::from_str("font-size"), String::from_str("1.25rem"))
    } else if str_eq(class, "text-2xl") {
        (String::from_str("font-size"), String::from_str("1.5rem"))
    } else if str_eq(class, "text-3xl") {
        (String::from_str("font-size"), String::from_str("1.875rem"))
    } else if str_eq(class, "text-4xl") {
        (String::from_str("font-size"), String::from_str("2.25rem"))
    } else if str_eq(class, "text-5xl") {
        (String::from_str("font-size"), String::from_str("3rem"))
    } else if str_eq(class, "font-normal") {
        (String::from_str("font-weight"), String::from_str("400"))
    } else if str_eq(class, "font-medium") {
        (String::from_str("font-weight"), String::from_str("500"))
    } else if str_eq(class, "font-semibold") {
        (String::from_str("font-weight"), String::from_str("600"))
    } else if str_eq(class, "font-bold") {
        (String::from_str("font-weight"), String::from_str("700"))
    } else if str_eq(class, "text-center") {
        (String::from_str("text-align"), String::from_str("center"))
    } else if str_eq(class, "text-left") {
        (String::from_str("text-align"), String::from_str("left"))
    } else if str_eq(class, "text-right") {
        (String::from_str("text-align"), String::from_str("right"))
    } else if str_eq(class, "text-white") {
        (String::from_str("color"), String::from_str("#ffffff"))
    } else if str_eq(class, "text-black") {
        (String::from_str("color"), String::from_str("#000000"))
    } else if str_eq(class, "text-gray-300") {
        (String::from_str("color"), String::from_str("#d1d5db"))
    } else if str_eq(class, "text-gray-400") {
        (String::from_str("color"), String::from_str("#9ca3af"))
    } else if str_eq(class, "text-gray-500") {
        (String::from_str("color"), String::from_str("#6b7280"))
    } else if str_eq(class, "text-gray-600") {
        (String::from_str("color"), String::from_str("#4b5563"))
    } else if str_eq(class, "text-gray-700") {
        (String::from_str("color"), String::from_str("#374151"))
    } else if str_eq(class, "text-gray-900") {
        (String::from_str("color"), String::from_str("#111827"))
    } else if str_eq(class, "text-blue-400") {
        (String::from_str("color"), String::from_str("#60a5fa"))
    } else if str_eq(class, "text-blue-500") {
        (String::from_str("color"), String::from_str("#3b82f6"))
    } else if str_eq(class, "text-blue-600") {
        (String::from_str("color"), String::from_str("#2563eb"))
    } else if str_eq(class, "text-cyan-400") {
        (String::from_str("color"), String::from_str("#22d3ee"))
    } else if str_eq(class, "text-orange-500") {
        (String::from_str("color"), String::from_str("#f97316"))
    } else if str_eq(class, "text-green-400") {
        (String::from_str("color"), String::from_str("#4ade80"))
    } else if str_eq(class, "text-yellow-400") {
        (String::from_str("color"), String::from_str("#facc15"))
    } else if str_eq(class, "bg-white") {
        (String::from_str("background-color"), String::from_str("#ffffff"))
    } else if str_eq(class, "bg-black") {
        (String::from_str("background-color"), String::from_str("#000000"))
    } else if str_eq(class, "bg-gray-50") {
        (String::from_str("background-color"), String::from_str("#f9fafb"))
    } else if str_eq(class, "bg-gray-100") {
        (String::from_str("background-color"), String::from_str("#f3f4f6"))
    } else if str_eq(class, "bg-gray-200") {
        (String::from_str("background-color"), String::from_str("#e5e7eb"))
    } else if str_eq(class, "bg-gray-800") {
        (String::from_str("background-color"), String::from_str("#1f2937"))
    } else if str_eq(class, "bg-gray-900") {
        (String::from_str("background-color"), String::from_str("#111827"))
    } else if str_eq(class, "bg-blue-500") {
        (String::from_str("background-color"), String::from_str("#3b82f6"))
    } else if str_eq(class, "bg-blue-600") {
        (String::from_str("background-color"), String::from_str("#2563eb"))
    } else if str_eq(class, "bg-blue-700") {
        (String::from_str("background-color"), String::from_str("#1d4ed8"))
    } else if str_eq(class, "bg-green-400") {
        (String::from_str("background-color"), String::from_str("#4ade80"))
    } else if str_eq(class, "p-1") {
        (String::from_str("padding"), String::from_str("0.25rem"))
    } else if str_eq(class, "p-2") {
        (String::from_str("padding"), String::from_str("0.5rem"))
    } else if str_eq(class, "p-3") {
        (String::from_str("padding"), String::from_str("0.75rem"))
    } else if str_eq(class, "p-4") {
        (String::from_str("padding"), String::from_str("1rem"))
    } else if str_eq(class, "p-6") {
        (String::from_str("padding"), String::from_str("1.5rem"))
    } else if str_eq(class, "px-2") {
        (String::from_str("padding-left"), String::from_str("0.5rem"))
    } else if str_eq(class, "px-3") {
        (String::from_str("padding-left"), String::from_str("0.75rem"))
    } else if str_eq(class, "px-4") {
        (String::from_str("padding-left"), String::from_str("1rem"))
    } else if str_eq(class, "px-6") {
        (String::from_str("padding-left"), String::from_str("1.5rem"))
    } else if str_eq(class, "px-8") {
        (String::from_str("padding-left"), String::from_str("2rem"))
    } else if str_eq(class, "py-1") {
        (String::from_str("padding-top"), String::from_str("0.25rem"))
    } else if str_eq(class, "py-2") {
        (String::from_str("padding-top"), String::from_str("0.5rem"))
    } else if str_eq(class, "py-3") {
        (String::from_str("padding-top"), String::from_str("0.75rem"))
    } else if str_eq(class, "py-4") {
        (String::from_str("padding-top"), String::from_str("1rem"))
    } else if str_eq(class, "py-12") {
        (String::from_str("padding-top"), String::from_str("3rem"))
    } else if str_eq(class, "py-16") {
        (String::from_str("padding-top"), String::from_str("4rem"))
    } else if str_eq(class, "py-20") {
        (String::from_str("padding-top"), String::from_str("5rem"))
    } else if str_eq(class, "mb-1") {
        (String::from_str("margin-bottom"), String::from_str("0.25rem"))
    } else if str_eq(class, "mb-2") {
        (String::from_str("margin-bottom"), String::from_str("0.5rem"))
    } else if str_eq(class, "mb-3") {
        (String::from_str("margin-bottom"), String::from_str("0.75rem"))
    } else if str_eq(class, "mb-4") {
        (String::from_str("margin-bottom"), String::from_str("1rem"))
    } else if str_eq(class, "mb-6") {
        (String::from_str("margin-bottom"), String::from_str("1.5rem"))
    } else if str_eq(class, "mb-8") {
        (String::from_str("margin-bottom"), String::from_str("2rem"))
    } else if str_eq(class, "mt-2") {
        (String::from_str("margin-top"), String::from_str("0.5rem"))
    } else if str_eq(class, "mt-4") {
        (String::from_str("margin-top"), String::from_str("1rem"))
    } else if str_eq(class, "mt-6") {
        (String::from_str("margin-top"), String::from_str("1.5rem"))
    } else if str_eq(class, "mt-12") {
        (String::from_str("margin-top"), String::from_str("3rem"))
    } else if str_eq(class, "mx-auto") {
        (String::from_str("margin-left"), String::from_str("auto"))
    } else if str_eq(class, "flex") {
        (String::from_str("display"), String::from_str("flex"))
    } else if str_eq(class, "inline-flex") {
        (String::from_str("display"), String::from_str("inline-flex"))
    } else if str_eq(class, "flex-row") {
        (String::from_str("flex-direction"), String::from_str("row"))
    } else if str_eq(class, "flex-col") {
        (String::from_str("flex-direction"), String::from_str("column"))
    } else if str_eq(class, "flex-wrap") {
        (String::from_str("flex-wrap"), String::from_str("wrap"))
    } else if str_eq(class, "items-center") {
        (String::from_str("align-items"), String::from_str("center"))
    } else if str_eq(class, "items-start") {
        (String::from_str("align-items"), String::from_str("flex-start"))
    } else if str_eq(class, "items-end") {
        (String::from_str("align-items"), String::from_str("flex-end"))
    } else if str_eq(class, "justify-center") {
        (String::from_str("justify-content"), String::from_str("center"))
    } else if str_eq(class, "justify-between") {
        (String::from_str("justify-content"), String::from_str("space-between"))
    } else if str_eq(class, "justify-end") {
        (String::from_str("justify-content"), String::from_str("flex-end"))
    } else if str_eq(class, "gap-1") {
        (String::from_str("gap"), String::from_str("0.25rem"))
    } else if str_eq(class, "gap-2") {
        (String::from_str("gap"), String::from_str("0.5rem"))
    } else if str_eq(class, "gap-3") {
        (String::from_str("gap"), String::from_str("0.75rem"))
    } else if str_eq(class, "gap-4") {
        (String::from_str("gap"), String::from_str("1rem"))
    } else if str_eq(class, "gap-6") {
        (String::from_str("gap"), String::from_str("1.5rem"))
    } else if str_eq(class, "gap-8") {
        (String::from_str("gap"), String::from_str("2rem"))
    } else if str_eq(class, "flex-1") {
        (String::from_str("flex"), String::from_str("1 1 0%"))
    } else if str_eq(class, "border") {
        (String::from_str("border-width"), String::from_str("1px"))
    } else if str_eq(class, "border-2") {
        (String::from_str("border-width"), String::from_str("2px"))
    } else if str_eq(class, "rounded") {
        (String::from_str("border-radius"), String::from_str("0.25rem"))
    } else if str_eq(class, "rounded-lg") {
        (String::from_str("border-radius"), String::from_str("0.5rem"))
    } else if str_eq(class, "rounded-xl") {
        (String::from_str("border-radius"), String::from_str("0.75rem"))
    } else if str_eq(class, "rounded-full") {
        (String::from_str("border-radius"), String::from_str("9999px"))
    } else if str_eq(class, "w-5") {
        (String::from_str("width"), String::from_str("1.25rem"))
    } else if str_eq(class, "h-5") {
        (String::from_str("height"), String::from_str("1.25rem"))
    } else if str_eq(class, "min-w-280") {
        (String::from_str("min-width"), String::from_str("70rem"))
    } else if str_eq(class, "max-w-2xl") {
        (String::from_str("max-width"), String::from_str("42rem"))
    } else if str_eq(class, "max-w-4xl") {
        (String::from_str("max-width"), String::from_str("56rem"))
    } else if str_eq(class, "shadow-lg") {
        (String::from_str("box-shadow"), String::from_str("0 10px 15px -3px rgb(0 0 0 / 0.1)"))
    } else if str_eq(class, "cursor-pointer") {
        (String::from_str("cursor"), String::from_str("pointer"))
    } else if str_eq(class, "overflow-hidden") {
        (String::from_str("overflow"), String::from_str("hidden"))
    } else if str_eq(class, "text-decoration-none") {
        (String::from_str("text-decoration"), String::from_str("none"))
    } else {
        (String::new(), String::new())
    }
}

/// The first inline-styles entry for the key, or the length when none.
pub open spec fn find_style(inline: Seq<(Seq<char>, Seq<Seq<char>>)>, key: Seq<char>, i: nat) -> int
    decreases inline.len() - i,
{
    if i >= inline.len() {
        inline.len() as int
    } else if inline[i as int].0 == key {
        i as int
    } else {
        find_style(inline, key, i + 1)
    }
}

proof fn lemma_find_style(inline: Seq<(Seq<char>, Seq<Seq<char>>)>, key: Seq<char>, i: nat, j: nat)
    requires
        i <= j <= inline.len(),
        forall|k: int| i <= k < j ==> (#[trigger] inline[k]).0 != key,
        j < inline.len() ==> inline[j as int].0 == key,
    ensures
        find_style(inline, key, i) == if j < inline.len() {
            j as int
        } else {
            inline.len() as int
        },
    decreases j - i,
{
    if i < j {
        lemma_find_style(inline, key, i + 1, j);
    }
}

/// Applies utility classes to a property list in order; recognized tokens
/// set or override the property directly, unrecognized ones are dropped.
pub open spec fn apply_classes(
    props: Seq<(Seq<char>, Seq<char>)>,
    classes: Seq<Seq<char>>,
    j: nat,
) -> Seq<(Seq<char>, Seq<char>)>
    decreases classes.len() - j,
{
    if j >= classes.len() {
        props
    } else {
        let pv = resolve_class(classes[j as int]);
        let props2 = if pv.0.len() > 0 {
            insert_prop(props, pv.0, pv.1)
        } else {
            props
        };
        apply_classes(props2, classes, j + 1)
    }
}

/// One rule with its matching inline utility classes applied; a rule whose
/// selector has no inline entry is unchanged.
pub open spec fn apply_inline_rule(
    r: (Seq<char>, Seq<(Seq<char>, Seq<char>)>, bool),
    inline: Seq<(Seq<char>, Seq<Seq<char>>)>,
) -> (Seq<char>, Seq<(Seq<char>, Seq<char>)>, bool) {
    let idx = find_style(inline, selector_key(r.0), 0);
    if 0 <= idx < inline.len() {
        (r.0, apply_classes(r.1, inline[idx].1, 0), r.2)
    } else {
        r
    }
}

pub open spec fn apply_inline(
    rules: Seq<(Seq<char>, Seq<(Seq<char>, Seq<char>)>, bool)>,
    inline: Seq<(Seq<char>, Seq<Seq<char>>)>,
    i: nat,
) -> Seq<(Seq<char>, Seq<(Seq<char>, Seq<char>)>, bool)>
    decreases rules.len() - i,
{
    if i >= rules.len() {
        rules
    } else {
        apply_inline(rules.update(i as int, apply_inline_rule(rules[i as int], inline)), inline, i + 1)
    }
}

/// The rules created for inline selectors that match no parsed rule: each
/// such selector, in map order, gets a fresh rule holding its resolved
/// properties. A selector whose classes all drop creates nothing.
pub open spec fn append_missing(
    rules: Seq<(Seq<char>, Seq<(Seq<char>, Seq<char>)>, bool)>,
    inline: Seq<(Seq<char>, Seq<Seq<char>>)>,
    i: nat,
) -> Seq<(Seq<char>, Seq<(Seq<char>, Seq<char>)>, bool)>
    decreases inline.len() - i,
{
    if i >= inline.len() {
        rules
    } else {
        let key = inline[i as int].0;
        let at = find_rule(rules, key, 0);
        if 0 <= at < rules.len() {
            append_missing(rules, inline, i + 1)
        } else {
            let props = apply_classes(Seq::empty(), inline[i as int].1, 0);
            if props.len() == 0 {
                append_missing(rules, inline, i + 1)
            } else {
                append_missing(rules.push((key, props, false)), inline, i + 1)
            }
        }
    }
}

/// The inline layer in full: every rule gets its matching utility classes
/// applied, and every inline selector without a rule gets one created.
pub open spec fn apply_inline_full(
    rules: Seq<(Seq<char>, Seq<(Seq<char>, Seq<char>)>, bool)>,
    inline: Seq<(Seq<char>, Seq<Seq<char>>)>,
) -> Seq<(Seq<char>, Seq<(Seq<char>, Seq<char>)>, bool)> {
    append_missing(apply_inline(rules, inline, 0), inline, 0)
}

/// The mathematical model of the per-selector inline class map.
pub open spec fn styles_view(v: Seq<(String, Vec<String>)>) -> Seq<(Seq<char>, Seq<Seq<char>>)> {
    v.map_values(|p: (String, Vec<String>)| (p.0@, p.1.deep_view()))
}

/// Applies the per-element inline utility classes on top of the rules:
/// the highest layer of the precedence order. A selector present in the
/// inline map but absent from the rules gets a rule created for it.
#[verifier::rlimit(100)]
#[verifier::spinoff_prover]
#[verifier::loop_isolation(false)]
pub fn apply_inline_styles(rules: &mut Vec<CssRule>, inline_styles: &Vec<(String, Vec<String>)>)
    ensures
        rules_view(final(rules)@) == apply_inline_full(
            rules_view(old(rules)@),
            styles_view(inline_styles@),
        ),
{
    let ghost inline = styles_view(inline_styles@);
    let ghost r0 = rules_view(rules@);
    let mut i: usize = 0;
    while i < rules.len()
        invariant
            i <= rules@.len(),
            inline == styles_view(inline_styles@),
            apply_inline(r0, inline, 0) == apply_inline(rules_view(rules@), inline, i as nat),
            r0 == rules_view(old(rules)@),
        decreases rules.len() - i,
    {
        let ghost pre = rules_view(rules@);
        let key = format_selector_key(rules[i].selector.as_str());
        let mut j: usize = 0;
        let mut found: Option<usize> = None;
        while j < inline_styles.len() && found.is_none()
            invariant
                j <= inline_styles.len(),
                inline == styles_view(inline_styles@),
                match found {
                    Some(f) => f < inline.len() && j == f + 1 && inline[f as int].0 == key@
                        && forall|k: int| 0 <= k < f ==> (#[trigger] inline[k]).0 != key@,
                    None => forall|k: int| 0 <= k < j ==> (#[trigger] inline[k]).0 != key@,
                },
            decreases inline_styles.len() - j,
        {
            if str_eq(inline_styles[j].0.as_str(), key.as_str()) {
                found = Some(j);
            }
            j = j + 1;
        }
        match found {
            Some(f) => {
                proof {
                    lemma_find_style(inline, key@, 0, f as nat);
                }
                let ghost seq_before = rules@;
                let mut target = rules.remove(i);
                let ghost t0 = prop_views(target.properties@);
                proof {
                    assert(target == seq_before[i as int]);
                }
                let classes = &inline_styles[f].1;
                let mut p: usize = 0;
                while p < classes.len()
                    invariant
                        p <= classes.len(),
                        inline == styles_view(inline_styles@),
                        f < inline.len(),
                        classes.deep_view() == inline[f as int].1,
                        target.selector == seq_before[i as int].selector,
                        target.is_pseudo == seq_before[i as int].is_pseudo,
                        apply_classes(t0, inline[f as int].1, 0) == apply_classes(
                            prop_views(target.properties@),
                            inline[f as int].1,
                            p as nat,
                        ),
                    decreases classes.len() - p,
                {
                    let (prop, value) = resolve_utility_class(classes[p].as_str());
                    if !prop.as_str().is_empty() {
                        insert_prop_exec(&mut target.properties, prop, value);
                    }
                    p = p + 1;
                }
                let ghost merged = rule_view(target);
                rules.insert(i, target);
                proof {
                    assert(rules@ =~= seq_before.update(i as int, target));
                    assert(rules_view(rules@) =~= pre.update(i as int, merged));
                    assert(merged == apply_inline_rule(pre[i as int], inline));
                }
            },
            None => {
                proof {
                    lemma_find_style(inline, key@, 0, inline.len() as nat);
                    assert(rules_view(rules@) =~= pre.update(
                        i as int,
                        apply_inline_rule(pre[i as int], inline),
                    ));
                }
            },
        }
        i = i + 1;
    }
    let ghost applied = rules_view(rules@);
    let mut m: usize = 0;
    while m < inline_styles.len()
        invariant
            m <= inline_styles.len(),
            inline == styles_view(inline_styles@),
            append_missing(applied, inline, 0) == append_missing(
                rules_view(rules@),
                inline,
                m as nat,
            ),
        decreases inline_styles.len() - m,
    {
        let ghost pre = rules_view(rules@);
        let key = &inline_styles[m].0;
        let mut j: usize = 0;
        let mut found = false;
        while j < rules.len() && !found
            invariant
                j <= rules.len(),
                pre == rules_view(rules@),
                found ==> exists|k: int|
                    0 <= k < pre.len() && selector_key(#[trigger] pre[k].0) == key@,
                !found ==> forall|k: int|
                    0 <= k < j ==> selector_key(#[trigger] pre[k].0) != key@,
            decreases rules.len() - j,
        {
            let bk = format_selector_key(rules[j].selector.as_str());
            if str_eq(bk.as_str(), key.as_str()) {
                found = true;
                proof {
                    assert(selector_key(pre[j as int].0) == key@);
                }
            }
            j = j + 1;
        }
        if found {
            proof {
                let k = choose|k: int|
                    0 <= k < pre.len() && selector_key(#[trigger] pre[k].0) == key@;
                lemma_find_rule_found(pre, key@, k);
            }
        } else {
            proof {
                lemma_find_rule(pre, key@, 0, pre.len() as nat);
            }
            let classes = &inline_styles[m].1;
            let mut props: Vec<(String, String)> = Vec::new();
            let mut p: usize = 0;
            proof {
                assert(prop_views(props@) =~= Seq::<(Seq<char>, Seq<char>)>::empty());
            }
            while p < classes.len()
                invariant
                    p <= classes.len(),
                    inline == styles_view(inline_styles@),
                    m < inline_styles@.len(),
                    classes.deep_view() == inline[m as int].1,
                    apply_classes(Seq::empty(), inline[m as int].1, 0) == apply_classes(
                        prop_views(props@),
                        inline[m as int].1,
                        p as nat,
                    ),
                decreases classes.len() - p,
            {
                let (prop, value) = resolve_utility_class(classes[p].as_str());
                if !prop.as_str().is_empty() {
                    insert_prop_exec(&mut props, prop, value);
                }
                p = p + 1;
            }
            if props.len() > 0 {
                let ghost created = (key@, prop_views(props@), false);
                let new_rule = CssRule {
                    selector: key.clone(),
                    properties: props,
                    is_pseudo: false,
                };
                rules.push(new_rule);
                proof {
                    assert(rules_view(rules@) =~= pre.push(created));
                }
            }
        }
        m = m + 1;
    }
}

/// `find_rule` lands inside the rules whenever some rule matches the key.
proof fn lemma_find_rule_found(
    rules: Seq<(Seq<char>, Seq<(Seq<char>, Seq<char>)>, bool)>,
    key: Seq<char>,
    w: int,
)
    requires
        0 <= w < rules.len(),
        selector_key(rules[w].0) == key,
    ensures
        0 <= find_rule(rules, key, 0) < rules.len(),
{
    lemma_find_rule_found_from(rules, key, 0, w);
}

proof fn lemma_find_rule_found_from(
    rules: Seq<(Seq<char>, Seq<(Seq<char>, Seq<char>)>, bool)>,
    key: Seq<char>,
    i: nat,
    w: int,
)
    requires
        i <= w < rules.len(),
        selector_key(rules[w].0) == key,
    ensures
        i <= find_rule(rules, key, i) < rules.len(),
    decreases w - i,
{
    if (i as int) < w && selector_key(rules[i as int].0) != key {
        lemma_find_rule_found_from(rules, key, i + 1, w);
    }
}


/// The built-in default theme, used when no base theme is configured.
pub const DEFAULT_THEME: &'static str = ".Button {\n  background-color: #2563eb;\n  color: #ffffff;\n  border-radius: 0.375rem;\n  padding: 0.5rem 1rem;\n}\n\n.Button:hover {\n  background-color: #1d4ed8;\n}\n\n.Card {\n  background-color: #ffffff;\n  border-radius: 0.5rem;\n  box-shadow: 0 1px 2px rgb(0 0 0 / 0.1);\n  padding: 1.5rem;\n}\n\n.Form {\n  display: flex;\n  flex-direction: column;\n  gap: 1rem;\n}\n\n.Field-control {\n  border-width: 1px;\n  border-radius: 0.375rem;\n  padding: 0.5rem 0.75rem;\n}\n\n.Switch-root {\n  background-color: #e5e7eb;\n  border-radius: 9999px;\n}\n";

pub open spec fn default_theme_text() -> Seq<char> {
    DEFAULT_THEME@
}

pub open spec fn prop_line_text(p: (Seq<char>, Seq<char>)) -> Seq<char> {
    "  "@ + p.0 + ": "@ + p.1 + ";\n"@
}

pub open spec fn props_block_text(props: Seq<(Seq<char>, Seq<char>)>, j: nat) -> Seq<char>
    decreases props.len() - j,
{
    if j >= props.len() {
        Seq::empty()
    } else {
        prop_line_text(props[j as int]) + props_block_text(props, j + 1)
    }
}

pub open spec fn rule_block_text(r: (Seq<char>, Seq<(Seq<char>, Seq<char>)>, bool)) -> Seq<char> {
    r.0 + " {\n"@ + props_block_text(r.1, 0) + "}\n\n"@
}

pub open spec fn rules_blocks_text(
    rules: Seq<(Seq<char>, Seq<(Seq<char>, Seq<char>)>, bool)>,
    i: nat,
) -> Seq<char>
    decreases rules.len() - i,
{
    if i >= rules.len() {
        Seq::empty()
    } else {
        rule_block_text(rules[i as int]) + rules_blocks_text(rules, i + 1)
    }
}

/// The serialized stylesheet: a banner naming the precedence order, then
/// one block per rule in order.
pub open spec fn css_output_text(rules: Seq<(Seq<char>, Seq<(Seq<char>, Seq<char>)>, bool)>) -> Seq<
    char,
> {
    "/* Processed CSS - Generated by NWL Compiler */\n/* Precedence: Base Theme < Override Theme < YAML Inline Styles */\n\n"@
        + rules_blocks_text(rules, 0)
}

/// Serializes the resolved rules deterministically, in rule order and
/// property order.
#[verifier::rlimit(100)]
#[verifier::spinoff_prover]
#[verifier::loop_isolation(false)]
pub fn generate_css_output(rules: &Vec<CssRule>) -> (r: String)
    ensures
        r@ == css_output_text(rules_view(rules@)),
{
    let ghost rv = rules_view(rules@);
    let mut out = String::from_str(
        "/* Processed CSS - Generated by NWL Compiler */\n/* Precedence: Base Theme < Override Theme < YAML Inline Styles */\n\n",
    );
    let ghost banner = out@;
    let mut i: usize = 0;
    while i < rules.len()
        invariant
            i <= rules.len(),
            out@ + rules_blocks_text(rv, i as nat) == banner + rules_blocks_text(rv, 0),
        decreases rules.len() - i,
    {
        let ghost out_prev = out@;
        let rule = &rules[i];
        proof {
            assert(rv[i as int] == rule_view(rules@[i as int]));
        }
        out.append(rule.selector.as_str());
        out.append(" {\n");
        let ghost pv = prop_views(rule.properties@);
        let ghost out_open = out@;
        let mut j: usize = 0;
        while j < rule.properties.len()
            invariant
                j <= rule.properties.len(),
                pv == prop_views(rule.properties@),
                out_open + props_block_text(pv, 0) == out@ + props_block_text(pv, j as nat),
            decreases rule.properties.len() - j,
        {
            out.append("  ");
            out.append(rule.properties[j].0.as_str());
            out.append(": ");
            out.append(rule.properties[j].1.as_str());
            out.append(";\n");
            j = j + 1;
        }
        out.append("}\n\n");
        proof {
            assert(out@ =~= out_prev + rule_block_text(rv[i as int]));
            assert(out@ + rules_blocks_text(rv, (i + 1) as nat) =~= out_prev + rules_blocks_text(
                rv,
                i as nat,
            ));
        }
        i = i + 1;
    }
    out
}

/// Sets the class list of a selector: the first entry with the same
/// selector is replaced in place; a new selector is appended.
pub open spec fn insert_style(
    acc: Seq<(Seq<char>, Seq<Seq<char>>)>,
    k: Seq<char>,
    v: Seq<Seq<char>>,
) -> Seq<(Seq<char>, Seq<Seq<char>>)>
    decreases acc.len(),
{
    if acc.len() == 0 {
        seq![(k, v)]
    } else if acc[0].0 == k {
        seq![(k, v)] + acc.drop_first()
    } else {
        seq![acc[0]] + insert_style(acc.drop_first(), k, v)
    }
}

proof fn lemma_insert_style_at(av: Seq<(Seq<char>, Seq<Seq<char>>)>, k: Seq<char>, v: Seq<Seq<char>>, i: int)
    requires
        0 <= i < av.len(),
        av[i].0 == k,
        forall|j: int| 0 <= j < i ==> av[j].0 != k,
    ensures
        insert_style(av, k, v) == av.update(i, (k, v)),
    decreases i,
{
    if i == 0 {
        assert(insert_style(av, k, v) =~= av.update(0, (k, v)));
    } else {
        let t = av.drop_first();
        assert(forall|j: int| 0 <= j < i - 1 ==> t[j] == av[j + 1] && t[j].0 != k);
        lemma_insert_style_at(t, k, v, i - 1);
        assert(seq![av[0]] + t.update(i - 1, (k, v)) =~= av.update(i, (k, v)));
    }
}

proof fn lemma_insert_style_append(av: Seq<(Seq<char>, Seq<Seq<char>>)>, k: Seq<char>, v: Seq<Seq<char>>)
    requires
        forall|j: int| 0 <= j < av.len() ==> av[j].0 != k,
    ensures
        insert_style(av, k, v) == av.push((k, v)),
    decreases av.len(),
{
    if av.len() == 0 {
        assert(insert_style(av, k, v) =~= av.push((k, v)));
    } else {
        let t = av.drop_first();
        assert(forall|j: int| 0 <= j < t.len() ==> t[j] == av[j + 1] && t[j].0 != k);
        lemma_insert_style_append(t, k, v);
        assert(seq![av[0]] + t.push((k, v)) =~= av.push((k, v)));
    }
}

fn clone_strings(v: &Vec<String>) -> (r: Vec<String>)
    ensures
        r.deep_view() == v.deep_view(),
{
    let mut out: Vec<String> = Vec::new();
    let mut i: usize = 0;
    while i < v.len()
        invariant
            i <= v.len(),
            out.deep_view() == v.deep_view().take(i as int),
        decreases v.len() - i,
    {
        let ghost pre = out.deep_view();
        out.push(v[i].clone());
        proof {
            assert(out.deep_view() =~= pre.push(v.deep_view()[i as int]));
            assert(v.deep_view().take(i + 1) =~= v.deep_view().take(i as int).push(
                v.deep_view()[i as int],
            ));
        }
        i = i + 1;
    }
    proof {
        assert(v.deep_view().take(v@.len() as int) =~= v.deep_view());
    }
    out
}

/// Records the class list of one selector, as `insert_style` says.
#[verifier::loop_isolation(false)]
fn insert_style_exec(styles: &mut Vec<(String, Vec<String>)>, k: String, v: Vec<String>)
    ensures
        styles_view(final(styles)@) == insert_style(styles_view(old(styles)@), k@, v.deep_view()),
{
    let ghost av = styles_view(styles@);
    let mut i: usize = 0;
    while i < styles.len()
        invariant
            i <= styles.len(),
            av == styles_view(styles@),
            forall|j: int| 0 <= j < i ==> (#[trigger] av[j]).0 != k@,
        decreases styles.len() - i,
    {
        if str_eq(styles[i].0.as_str(), k.as_str()) {
            proof {
                lemma_insert_style_at(av, k@, v.deep_view(), i as int);
            }
            let ghost kv = k@;
            let ghost vv = v.deep_view();
            styles.set(i, (k, v));
            proof {
                assert(styles_view(styles@) =~= av.update(i as int, (kv, vv)));
            }
            return ;
        }
        i = i + 1;
    }
    proof {
        lemma_insert_style_append(av, k@, v.deep_view());
    }
    let ghost kv = k@;
    let ghost vv = v.deep_view();
    styles.push((k, v));
    proof {
        assert(styles_view(styles@) =~= av.push((kv, vv)));
    }
}

/// The inline-style entries one element contributes: elements with a fixed
/// structural class record their utility classes under that class; a
/// container and a layout also walk their children.
pub open spec fn collect_element(e: Element, acc: Seq<(Seq<char>, Seq<Seq<char>>)>) -> Seq<
    (Seq<char>, Seq<Seq<char>>),
>
    decreases e, 0int, 0int,
{
    match e {
        Element::Button(x) => if x.style@.len() > 0 {
            insert_style(acc, "Button"@, x.style.deep_view())
        } else {
            acc
        },
        Element::Card(x) => if x.style@.len() > 0 {
            insert_style(acc, "Card"@, x.style.deep_view())
        } else {
            acc
        },
        Element::List(x) => if x.style@.len() > 0 {
            insert_style(acc, "List"@, x.style.deep_view())
        } else {
            acc
        },
        Element::Checkbox(x) => if x.style@.len() > 0 {
            insert_style(acc, "Checkbox-root"@, x.style.deep_view())
        } else {
            acc
        },
        Element::Select(x) => if x.style@.len() > 0 {
            insert_style(acc, "Select-trigger"@, x.style.deep_view())
        } else {
            acc
        },
        Element::RadioGroup(x) => if x.style@.len() > 0 {
            insert_style(acc, "RadioGroup"@, x.style.deep_view())
        } else {
            acc
        },
        Element::Toggle(x) => if x.style@.len() > 0 {
            insert_style(acc, "Switch-root"@, x.style.deep_view())
        } else {
            acc
        },
        Element::Form(x) => if x.style@.len() > 0 {
            insert_style(acc, "Form"@, x.style.deep_view())
        } else {
            acc
        },
        Element::Field(x) => if x.style@.len() > 0 {
            insert_style(acc, "Field-root"@, x.style.deep_view())
        } else {
            acc
        },
        Element::Badge(x) => if x.style@.len() > 0 {
            insert_style(acc, "Badge"@, x.style.deep_view())
        } else {
            acc
        },
        Element::Tag(x) => if x.style@.len() > 0 {
            insert_style(acc, "Tag"@, x.style.deep_view())
        } else {
            acc
        },
        Element::Alert(x) => if x.style@.len() > 0 {
            insert_style(acc, "Alert"@, x.style.deep_view())
        } else {
            acc
        },
        Element::Spinner(x) => if x.style@.len() > 0 {
            insert_style(acc, "Spinner"@, x.style.deep_view())
        } else {
            acc
        },
        Element::Counter(x) => if x.style@.len() > 0 {
            insert_style(acc, "NumberField-root"@, x.style.deep_view())
        } else {
            acc
        },
        Element::Container(x) => collect_container(x, acc),
        Element::Layout(x) => collect_elements(x.children@, acc, 0),
        _ => acc,
    }
}

pub open spec fn collect_elements(
    es: Seq<Element>,
    acc: Seq<(Seq<char>, Seq<Seq<char>>)>,
    i: nat,
) -> Seq<(Seq<char>, Seq<Seq<char>>)>
    decreases es, 1int, es.len() - i,
{
    if i >= es.len() {
        acc
    } else {
        collect_elements(es, collect_element(es[i as int], acc), i + 1)
    }
}

pub open spec fn collect_container(
    c: ContainerElement,
    acc: Seq<(Seq<char>, Seq<Seq<char>>)>,
) -> Seq<(Seq<char>, Seq<Seq<char>>)>
    decreases c, 2int, 0int,
{
    let acc2 = if c.style@.len() > 0 {
        insert_style(acc, "Container"@, c.style.deep_view())
    } else {
        acc
    };
    collect_elements(c.children@, acc2, 0)
}

pub open spec fn collect_pages(
    pages: Seq<crate::model::Page>,
    acc: Seq<(Seq<char>, Seq<Seq<char>>)>,
    i: nat,
) -> Seq<(Seq<char>, Seq<Seq<char>>)>
    decreases pages.len() - i,
{
    if i >= pages.len() {
        acc
    } else {
        collect_pages(pages, collect_elements(pages[i as int].page_data.children@, acc, 0), i + 1)
    }
}

#[verifier::rlimit(100)]
#[verifier::spinoff_prover]
fn collect_one(element: &Element, styles: &mut Vec<(String, Vec<String>)>)
    ensures
        styles_view(final(styles)@) == collect_element(*element, styles_view(old(styles)@)),
    decreases *element, 0int,
{
    match element {
        Element::Button(x) => {
            if x.style.len() > 0 {
                insert_style_exec(styles, String::from_str("Button"), clone_strings(&x.style));
            }
        },
        Element::Card(x) => {
            if x.style.len() > 0 {
                insert_style_exec(styles, String::from_str("Card"), clone_strings(&x.style));
            }
        },
        Element::List(x) => {
            if x.style.len() > 0 {
                insert_style_exec(styles, String::from_str("List"), clone_strings(&x.style));
            }
        },
        Element::Checkbox(x) => {
            if x.style.len() > 0 {
                insert_style_exec(
                    styles,
                    String::from_str("Checkbox-root"),
                    clone_strings(&x.style),
                );
            }
        },
        Element::Select(x) => {
            if x.style.len() > 0 {
                insert_style_exec(
                    styles,
                    String::from_str("Select-trigger"),
                    clone_strings(&x.style),
                );
            }
        },
        Element::RadioGroup(x) => {
            if x.style.len() > 0 {
                insert_style_exec(styles, String::from_str("RadioGroup"), clone_strings(&x.style));
            }
        },
        Element::Toggle(x) => {
            if x.style.len() > 0 {
                insert_style_exec(styles, String::from_str("Switch-root"), clone_strings(&x.style));
            }
        },
        Element::Form(x) => {
            if x.style.len() > 0 {
                insert_style_exec(styles, String::from_str("Form"), clone_strings(&x.style));
            }
        },
        Element::Field(x) => {
            if x.style.len() > 0 {
                insert_style_exec(styles, String::from_str("Field-root"), clone_strings(&x.style));
            }
        },
        Element::Badge(x) => {
            if x.style.len() > 0 {
                insert_style_exec(styles, String::from_str("Badge"), clone_strings(&x.style));
            }
        },
        Element::Tag(x) => {
            if x.style.len() > 0 {
                insert_style_exec(styles, String::from_str("Tag"), clone_strings(&x.style));
            }
        },
        Element::Alert(x) => {
            if x.style.len() > 0 {
                insert_style_exec(styles, String::from_str("Alert"), clone_strings(&x.style));
            }
        },
        Element::Spinner(x) => {
            if x.style.len() > 0 {
                insert_style_exec(styles, String::from_str("Spinner"), clone_strings(&x.style));
            }
        },
        Element::Counter(x) => {
            if x.style.len() > 0 {
                insert_style_exec(
                    styles,
                    String::from_str("NumberField-root"),
                    clone_strings(&x.style),
                );
            }
        },
        Element::Container(x) => {
            collect_container_styles(x, styles);
        },
        Element::Layout(x) => {
            collect_element_styles(&x.children, styles);
        },
        _ => {},
    }
}

/// Walks an element list, recording each element's inline classes.
#[verifier::loop_isolation(false)]
pub fn collect_element_styles(elements: &Vec<Element>, styles: &mut Vec<(String, Vec<String>)>)
    ensures
        styles_view(final(styles)@) == collect_elements(elements@, styles_view(old(styles)@), 0),
    decreases elements@, 1int,
{
    let mut i: usize = 0;
    while i < elements.len()
        invariant
            i <= elements.len(),
            collect_elements(elements@, styles_view(old(styles)@), 0) == collect_elements(
                elements@,
                styles_view(styles@),
                i as nat,
            ),
        decreases elements.len() - i,
    {
        collect_one(&elements[i], styles);
        i = i + 1;
    }
}

/// Records a container's own classes, then walks its children.
pub fn collect_container_styles(
    container: &ContainerElement,
    styles: &mut Vec<(String, Vec<String>)>,
)
    ensures
        styles_view(final(styles)@) == collect_container(*container, styles_view(old(styles)@)),
    decreases *container, 2int,
{
    if container.style.len() > 0 {
        insert_style_exec(styles, String::from_str("Container"), clone_strings(&container.style));
    }
    collect_element_styles(&container.children, styles);
}

fn collect_page_styles(page: &PageData, styles: &mut Vec<(String, Vec<String>)>)
    ensures
        styles_view(final(styles)@) == collect_elements(page.children@, styles_view(old(styles)@), 0),
{
    collect_element_styles(&page.children, styles);
}

/// Gathers the per-selector inline utility classes of every page of a
/// document, in document order.
#[verifier::loop_isolation(false)]
pub fn collect_inline_styles(document: &Document) -> (r: Vec<(String, Vec<String>)>)
    ensures
        styles_view(r@) == collect_pages(document.pages@, Seq::empty(), 0),
{
    let mut styles: Vec<(String, Vec<String>)> = Vec::new();
    proof {
        assert(styles_view(styles@) =~= Seq::<(Seq<char>, Seq<Seq<char>>)>::empty());
    }
    let mut i: usize = 0;
    while i < document.pages.len()
        invariant
            i <= document.pages.len(),
            collect_pages(document.pages@, Seq::empty(), 0) == collect_pages(
                document.pages@,
                styles_view(styles@),
                i as nat,
            ),
        decreases document.pages.len() - i,
    {
        collect_page_styles(&document.pages[i].page_data, &mut styles);
        i = i + 1;
    }
    styles
}

pub open spec fn opt_str_view(s: Option<&str>) -> Option<Seq<char>> {
    match s {
        Some(t) => Some(t@),
        None => None,
    }
}

/// The fully resolved rules: the base theme (built-in when none is given),
/// the override merged over it, and the inline classes applied last.
pub open spec fn processed_rules(
    base: Option<Seq<char>>,
    ov: Option<Seq<char>>,
    inline: Seq<(Seq<char>, Seq<Seq<char>>)>,
) -> Seq<(Seq<char>, Seq<(Seq<char>, Seq<char>)>, bool)> {
    let base_rules = match base {
        Some(t) => parse_css_text(t),
        None => parse_css_text(default_theme_text()),
    };
    let merged = match ov {
        Some(t) => merge_rules_from(base_rules, parse_css_text(t), 0),
        None => base_rules,
    };
    apply_inline_full(merged, inline)
}

/// Resolves the stylesheet with the documented precedence: base theme text
/// (the built-in default when absent), then the override text, then the
/// inline utility classes. Resolution always succeeds; a missing theme
/// file is represented by its caller as an absent or empty text.
pub fn process_css(
    base_theme: Option<&str>,
    override_theme: Option<&str>,
    inline_styles: &Vec<(String, Vec<String>)>,
) -> (r: Result<ProcessedCss, String>)
    ensures
        r matches Ok(p) && rules_view(p.rules@) == processed_rules(
            opt_str_view(base_theme),
            opt_str_view(override_theme),
            styles_view(inline_styles@),
        ) && p.import_statements@.len() == 0,
{
    let base = match base_theme {
        Some(t) => parse_css(t),
        None => parse_css(DEFAULT_THEME),
    };
    let base_rules = match base {
        Ok(v) => v,
        Err(_) => {
            proof {
                assert(false);
            }
            Vec::new()
        },
    };
    let mut rules = match override_theme {
        Some(t) => merge_css_rules(base_rules, t),
        None => base_rules,
    };
    apply_inline_styles(&mut rules, inline_styles);
    Ok(ProcessedCss { rules, import_statements: Vec::new() })
}

} // verus!
