//! Small text-building helpers shared by the code generators: appending a
//! single character, repeated indentation, and ASCII case shifting.

use vstd::prelude::*;

verus! {

/// Uppercase shift for ASCII letters; every other character is unchanged.
pub open spec fn upper_char(c: char) -> char {
    if 'a' <= c && c <= 'z' {
        ((c as u8) - 32) as char
    } else {
        c
    }
}

/// Relies on String::push: appends exactly one character to the string.
#[verifier::external_body]
pub fn push_char(s: &mut String, c: char)
    ensures
        final(s)@ == old(s)@ + seq![c],
{
    s.push(c)
}

/// Lowercase shift for ASCII letters; every other character is unchanged.
pub open spec fn lower_char(c: char) -> char {
    if 'A' <= c && c <= 'Z' {
        ((c as u8) + 32) as char
    } else {
        c
    }
}

/// ASCII lowercase of one character, as `lower_char` describes.
pub fn to_lower(c: char) -> (r: char)
    ensures
        r == lower_char(c),
{
    if 'A' <= c && c <= 'Z' {
        ((c as u8) + 32) as char
    } else {
        c
    }
}

/// ASCII uppercase of one character, as `upper_char` describes.
pub fn to_upper(c: char) -> (r: char)
    ensures
        r == upper_char(c),
{
    if 'a' <= c && c <= 'z' {
        ((c as u8) - 32) as char
    } else {
        c
    }
}

/// Character equality of two string slices.
pub fn str_eq(a: &str, b: &str) -> (r: bool)
    ensures
        r == (a@ == b@),
{
    let an = a.unicode_len();
    let bn = b.unicode_len();
    if an != bn {
        proof {
            assert(a@ != b@) by {
                if a@ == b@ {
                    assert(a@.len() == b@.len());
                }
            }
        }
        return false;
    }
    let mut i: usize = 0;
    while i < an
        invariant
            an == a@.len(),
            an == b@.len(),
            i <= an,
            forall|j: int| 0 <= j < i ==> a@[j] == b@[j],
        decreases an - i,
    {
        if a.get_char(i) != b.get_char(i) {
            proof {
                assert(a@ != b@) by {
                    if a@ == b@ {
                        assert(a@[i as int] == b@[i as int]);
                    }
                }
            }
            return false;
        }
        i = i + 1;
    }
    proof {
        assert(a@ =~= b@);
    }
    true
}

/// The decimal digit character for a value below ten.
pub open spec fn digit_char(d: nat) -> char {
    ((48 + d) as u8) as char
}

/// Decimal rendering of a natural number, most significant digit first.
pub open spec fn dec_text(n: nat) -> Seq<char>
    decreases n,
{
    if n < 10 {
        seq![digit_char(n)]
    } else {
        dec_text(n / 10) + seq![digit_char(n % 10)]
    }
}

/// Decimal rendering of an integer, with a leading minus sign when negative.
pub open spec fn int_text(n: int) -> Seq<char> {
    if n < 0 {
        seq!['-'] + dec_text((-n) as nat)
    } else {
        dec_text(n as nat)
    }
}

pub open spec fn bool_text(b: bool) -> Seq<char> {
    if b {
        "true"@
    } else {
        "false"@
    }
}

fn digit_to_char(d: u64) -> (c: char)
    requires
        d < 10,
    ensures
        c == digit_char(d as nat),
{
    ((48 + d as u8)) as char
}

/// Writes the decimal rendering of `n`.
pub fn u64_string(n: u64) -> (r: String)
    ensures
        r@ == dec_text(n as nat),
    decreases n,
{
    if n < 10 {
        let mut s = String::new();
        push_char(&mut s, digit_to_char(n));
        proof {
            assert(Seq::<char>::empty() + seq![digit_char(n as nat)] =~= seq![
                digit_char(n as nat),
            ]);
        }
        s
    } else {
        proof {
            assert(n / 10 < n) by (nonlinear_arith)
                requires
                    n >= 10,
            ;
        }
        let mut s = u64_string(n / 10);
        push_char(&mut s, digit_to_char(n % 10));
        s
    }
}

pub fn u32_string(n: u32) -> (r: String)
    ensures
        r@ == dec_text(n as nat),
{
    u64_string(n as u64)
}

/// Writes the decimal rendering of `n`, sign included.
pub fn i32_string(n: i32) -> (r: String)
    ensures
        r@ == int_text(n as int),
{
    if n < 0 {
        let mag = -(n as i64);
        let mut s = String::new();
        push_char(&mut s, '-');
        let digits = u64_string(mag as u64);
        s.append(digits.as_str());
        proof {
            assert(Seq::<char>::empty() + seq!['-'] =~= seq!['-']);
        }
        s
    } else {
        u64_string(n as u64)
    }
}

/// A backslash doubled, for splicing a pattern into a single-quoted
/// JavaScript string literal.
pub open spec fn escape_backslashes(s: Seq<char>) -> Seq<char>
    decreases s.len(),
{
    if s.len() == 0 {
        Seq::empty()
    } else if s[0] == '\\' {
        seq!['\\', '\\'] + escape_backslashes(s.drop_first())
    } else {
        seq![s[0]] + escape_backslashes(s.drop_first())
    }
}

pub fn escape_backslashes_string(s: &str) -> (r: String)
    ensures
        r@ == escape_backslashes(s@),
{
    let n = s.unicode_len();
    let mut out = String::new();
    let mut i: usize = 0;
    proof {
        assert(s@.skip(0) =~= s@);
        assert(Seq::<char>::empty() + escape_backslashes(s@) =~= escape_backslashes(s@));
    }
    while i < n
        invariant
            n == s@.len(),
            i <= n,
            escape_backslashes(s@) == out@ + escape_backslashes(s@.skip(i as int)),
        decreases n - i,
    {
        let c = s.get_char(i);
        proof {
            assert(s@.skip(i as int).drop_first() =~= s@.skip(i + 1));
            assert(s@.skip(i as int)[0] == s@[i as int]);
        }
        if c == '\\' {
            out.append("\\\\");
            proof {
                assert("\\\\"@ =~= seq!['\\', '\\']) by {
                    reveal_strlit("\\\\");
                }
            }
        } else {
            push_char(&mut out, c);
        }
        i = i + 1;
    }
    proof {
        assert(s@.skip(n as int) =~= Seq::<char>::empty());
    }
    out
}

/// Whitespace for the purposes of trimming CSS lines.
pub open spec fn is_space(c: char) -> bool {
    c == ' ' || c == '\t' || c == '\r' || c == '\n'
}

/// Whether the character is trimming whitespace, as `is_space` says.
pub fn is_space_char(c: char) -> (r: bool)
    ensures
        r == is_space(c),
{
    c == ' ' || c == '\t' || c == '\r' || c == '\n'
}

pub open spec fn trim_front(s: Seq<char>) -> Seq<char>
    decreases s.len(),
{
    if s.len() > 0 && is_space(s[0]) {
        trim_front(s.drop_first())
    } else {
        s
    }
}

pub open spec fn trim_back(s: Seq<char>) -> Seq<char>
    decreases s.len(),
{
    if s.len() > 0 && is_space(s.last()) {
        trim_back(s.drop_last())
    } else {
        s
    }
}

/// The text with leading and trailing whitespace removed.
pub open spec fn trim_text(s: Seq<char>) -> Seq<char> {
    trim_back(trim_front(s))
}

proof fn lemma_trim_front_skip(s: Seq<char>, i: int)
    requires
        0 <= i <= s.len(),
        forall|j: int| 0 <= j < i ==> is_space(s[j]),
        i < s.len() ==> !is_space(s[i]),
    ensures
        trim_front(s) == s.skip(i),
    decreases i,
{
    if i == 0 {
        assert(s.skip(0) =~= s);
    } else {
        assert(is_space(s[0]));
        lemma_trim_front_skip(s.drop_first(), i - 1);
        assert(s.drop_first().skip(i - 1) =~= s.skip(i));
    }
}

proof fn lemma_trim_back_take(s: Seq<char>, i: int)
    requires
        0 <= i <= s.len(),
        forall|j: int| i <= j < s.len() ==> is_space(s[j]),
        i > 0 ==> !is_space(s[i - 1]),
    ensures
        trim_back(s) == s.take(i),
    decreases s.len() - i,
{
    if i == s.len() {
        assert(s.take(i) =~= s);
    } else {
        assert(is_space(s.last()));
        lemma_trim_back_take(s.drop_last(), i);
        assert(s.drop_last().take(i) =~= s.take(i));
    }
}

/// The slice with leading and trailing whitespace removed.
pub fn trim_str<'a>(s: &'a str) -> (r: &'a str)
    ensures
        r@ == trim_text(s@),
{
    let n = s.unicode_len();
    let mut a: usize = 0;
    while a < n && is_space_char(s.get_char(a))
        invariant
            n == s@.len(),
            a <= n,
            forall|j: int| 0 <= j < a ==> is_space(s@[j]),
        decreases n - a,
    {
        a = a + 1;
    }
    proof {
        lemma_trim_front_skip(s@, a as int);
    }
    let mut b: usize = n;
    while b > a && is_space_char(s.get_char(b - 1))
        invariant
            n == s@.len(),
            a <= b <= n,
            forall|j: int| 0 <= j < a ==> is_space(s@[j]),
            a < n ==> !is_space(s@[a as int]),
            forall|j: int| b <= j < n ==> is_space(s@[j]),
        decreases b,
    {
        b = b - 1;
    }
    let r = s.substring_char(a, b);
    proof {
        let t = s@.skip(a as int);
        lemma_trim_back_take(t, b - a);
        assert(t.take(b - a) =~= s@.subrange(a as int, b as int));
        if b > a {
            assert(t[b - a - 1] == s@[b - 1]);
        }
    }
    r
}

/// The lines of a text, split at newlines, without a trailing empty line.
pub open spec fn lines_text(s: Seq<char>) -> Seq<Seq<char>>
    decreases s.len(),
{
    if s.len() == 0 {
        Seq::empty()
    } else if s[0] == '\n' {
        seq![Seq::<char>::empty()] + lines_text(s.drop_first())
    } else {
        prepend_to_first_line(s[0], lines_text(s.drop_first()))
    }
}

/// Prefixes a character onto the first line, making a first line of it
/// when there is none.
pub open spec fn prepend_to_first_line(c: char, ls: Seq<Seq<char>>) -> Seq<Seq<char>> {
    if ls.len() == 0 {
        seq![seq![c]]
    } else {
        seq![seq![c] + ls[0]] + ls.drop_first()
    }
}

/// A text whose first `j` characters are no newlines splits into its first
/// chunk and the lines of what follows the newline.
proof fn lemma_lines_chunk(s: Seq<char>, j: int)
    requires
        s.len() > 0,
        0 <= j <= s.len(),
        forall|k: int| 0 <= k < j ==> s[k] != '\n',
        j < s.len() ==> s[j] == '\n',
    ensures
        j < s.len() ==> lines_text(s) == seq![s.take(j)] + lines_text(s.skip(j + 1)),
        j == s.len() ==> lines_text(s) == seq![s],
    decreases j,
{
    if j == 0 {
        if j < s.len() {
            assert(s.take(0) =~= Seq::<char>::empty());
            assert(s.skip(1) =~= s.drop_first());
        }
    } else {
        assert(s[0] != '\n');
        let t = s.drop_first();
        assert(forall|k: int| 0 <= k < j - 1 ==> t[k] == s[k + 1] && t[k] != '\n');
        if j == s.len() {
            if t.len() == 0 {
                assert(lines_text(s) == prepend_to_first_line(s[0], lines_text(t)));
                assert(lines_text(t) =~= Seq::<Seq<char>>::empty());
                assert(seq![s[0]] =~= s);
                assert(prepend_to_first_line(s[0], Seq::<Seq<char>>::empty()) =~= seq![s]);
            } else {
                lemma_lines_chunk(t, j - 1);
                assert(lines_text(t) == seq![t]);
                assert(seq![s[0]] + t =~= s);
                assert(prepend_to_first_line(s[0], seq![t]) =~= seq![seq![s[0]] + t]);
                assert(seq![seq![s[0]] + t] =~= seq![s]);
            }
        } else {
            lemma_lines_chunk(t, j - 1);
            assert(lines_text(t) == seq![t.take(j - 1)] + lines_text(t.skip(j)));
            assert(seq![s[0]] + t.take(j - 1) =~= s.take(j));
            assert(t.skip(j) =~= s.skip(j + 1));
            assert((seq![t.take(j - 1)] + lines_text(t.skip(j))).len() > 0);
            assert(prepend_to_first_line(s[0], lines_text(t)) =~= seq![s.take(j)] + lines_text(
                s.skip(j + 1),
            ));
        }
    }
}

/// Splits a text into its lines.
pub fn split_lines(s: &str) -> (r: Vec<String>)
    ensures
        r.deep_view() == lines_text(s@),
{
    let n = s.unicode_len();
    let mut out: Vec<String> = Vec::new();
    let mut start: usize = 0;
    proof {
        assert(s@.skip(0) =~= s@);
        assert(out.deep_view() =~= Seq::<Seq<char>>::empty());
        assert(Seq::<Seq<char>>::empty() + lines_text(s@) =~= lines_text(s@));
    }
    while start < n
        invariant
            n == s@.len(),
            start <= n,
            lines_text(s@) == out.deep_view() + lines_text(s@.skip(start as int)),
        decreases n - start,
    {
        let ghost rest = s@.skip(start as int);
        let mut j: usize = start;
        while j < n && s.get_char(j) != '\n'
            invariant
                n == s@.len(),
                start <= j <= n,
                forall|k: int| start <= k < j ==> s@[k] != '\n',
            decreases n - j,
        {
            j = j + 1;
        }
        proof {
            assert(forall|k: int| 0 <= k < j - start ==> rest[k] == s@[start + k]);
            lemma_lines_chunk(rest, j - start);
        }
        let line = s.substring_char(start, j);
        let owned = line.to_owned();
        let ghost old_dv = out.deep_view();
        out.push(owned);
        proof {
            assert(out.deep_view() =~= old_dv + seq![s@.subrange(start as int, j as int)]);
            assert(rest.take(j - start) =~= s@.subrange(start as int, j as int));
        }
        if j < n {
            proof {
                assert(rest.skip(j - start + 1) =~= s@.skip(j + 1));
            }
            start = j + 1;
        } else {
            proof {
                assert(rest =~= s@.subrange(start as int, j as int));
                assert(s@.skip(n as int) =~= Seq::<char>::empty());
                assert(out.deep_view() + lines_text(s@.skip(n as int)) =~= out.deep_view());
            }
            start = n;
        }
    }
    out
}

/// The text with every trailing semicolon removed.
pub open spec fn trim_semicolons_back(s: Seq<char>) -> Seq<char>
    decreases s.len(),
{
    if s.len() > 0 && s.last() == ';' {
        trim_semicolons_back(s.drop_last())
    } else {
        s
    }
}

proof fn lemma_trim_semicolons_take(s: Seq<char>, i: int)
    requires
        0 <= i <= s.len(),
        forall|j: int| i <= j < s.len() ==> s[j] == ';',
        i > 0 ==> s[i - 1] != ';',
    ensures
        trim_semicolons_back(s) == s.take(i),
    decreases s.len() - i,
{
    if i == s.len() {
        assert(s.take(i) =~= s);
    } else {
        lemma_trim_semicolons_take(s.drop_last(), i);
        assert(s.drop_last().take(i) =~= s.take(i));
    }
}

/// The slice with every trailing semicolon removed.
pub fn trim_semicolons<'a>(s: &'a str) -> (r: &'a str)
    ensures
        r@ == trim_semicolons_back(s@),
{
    let n = s.unicode_len();
    let mut b: usize = n;
    while b > 0 && s.get_char(b - 1) == ';'
        invariant
            n == s@.len(),
            b <= n,
            forall|j: int| b <= j < n ==> s@[j] == ';',
        decreases b,
    {
        b = b - 1;
    }
    let r = s.substring_char(0, b);
    proof {
        lemma_trim_semicolons_take(s@, b as int);
        assert(s@.take(b as int) =~= s@.subrange(0, b as int));
    }
    r
}

/// The index of the first occurrence of a character.
pub fn find_char(s: &str, c: char) -> (r: Option<usize>)
    ensures
        match r {
            Some(i) => i < s@.len() && s@[i as int] == c && forall|j: int|
                0 <= j < i ==> s@[j] != c,
            None => forall|j: int| 0 <= j < s@.len() ==> s@[j] != c,
        },
{
    let n = s.unicode_len();
    let mut i: usize = 0;
    while i < n
        invariant
            n == s@.len(),
            i <= n,
            forall|j: int| 0 <= j < i ==> s@[j] != c,
        decreases n - i,
    {
        if s.get_char(i) == c {
            return Some(i);
        }
        i = i + 1;
    }
    None
}

} // verus!
