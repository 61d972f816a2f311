//! Message templates of user-facing errors. A template such as
//! `"Table ${table} is missing"` names the fields of the error that are
//! substituted into the message; the error code generator reads the variable
//! names out of the template and turns the template into a format string.

use vstd::prelude::*;
use vstd::string::*;
use crate::text::{lex_lt, lemma_lex_lt_total, lemma_lex_lt_transitive, lemma_lex_lt_irreflexive, push_char, str_eq, str_lt};

verus! {

/// The pattern of a variable in a message template: `${`, then one or more
/// ASCII letters, digits and underscores (captured), then `}`.
pub const MESSAGE_VARIABLE_REGEX_PATTERN: &'static str = r##"(?x)
    \$\{  # A curly brace preceded by a dollar sign
    (
        [a-zA-Z0-9_]+  # any number of alphanumeric characters and underscores
    )
    }  # a closing curly brace
"##;

/// What the regex crate finds for `pattern` in `text`: `None` when the
/// pattern does not compile, else, for each successive non-overlapping match
/// (leftmost first), the text of capture group `group` if it took part in
/// the match.
pub uninterp spec fn regex_group_captures(pattern: Seq<char>, text: Seq<char>, group: usize) -> Option<
    Seq<Option<Seq<char>>>,
>;

/// The character sequences of a sequence of optional strings.
pub open spec fn option_views(v: Seq<Option<String>>) -> Seq<Option<Seq<char>>> {
    v.map_values(|o: Option<String>| match o {
        Some(s) => Some(s@),
        None => None,
    })
}

/// An ASCII letter, digit or underscore: a character of a variable's name.
pub open spec fn name_char(c: char) -> bool {
    ('a' <= c && c <= 'z') || ('A' <= c && c <= 'Z') || ('0' <= c && c <= '9') || c == '_'
}

/// The end of the run of name characters of `t` that starts at `k`.
pub open spec fn name_run_end(t: Seq<char>, k: int) -> int
    decreases t.len() - k,
{
    if 0 <= k < t.len() && name_char(t[k]) {
        name_run_end(t, k + 1)
    } else {
        k
    }
}

/// Where a variable `${name}` that starts at `i` in `t` ends: the position
/// of its `}`, or `None` when none starts there.
pub open spec fn variable_end_at(t: Seq<char>, i: int) -> Option<int> {
    if 0 <= i && i + 1 < t.len() && t[i] == '$' && t[i + 1] == '{' && name_run_end(t, i + 2) > i
        + 2 && name_run_end(t, i + 2) < t.len() && t[name_run_end(t, i + 2)] == '}' {
        Some(name_run_end(t, i + 2))
    } else {
        None
    }
}

/// The names of the variables of `t` from position `i` on, scanning left to
/// right and going on after the `}` of each variable found.
pub open spec fn variables_from(t: Seq<char>, i: int) -> Seq<Seq<char>>
    decreases t.len() - i,
{
    if i < 0 || i >= t.len() {
        Seq::empty()
    } else {
        match variable_end_at(t, i) {
            Some(e) => seq![t.subrange(i + 2, e)] + variables_from(t, e + 1),
            None => variables_from(t, i + 1),
        }
    }
}

/// The names of the variables of a message template, in order of appearance.
pub open spec fn variable_names(t: Seq<char>) -> Seq<Seq<char>> {
    variables_from(t, 0)
}

/// The capture of each variable of `t`: its name, present.
pub open spec fn variable_captures(t: Seq<char>) -> Seq<Option<Seq<char>>> {
    variable_names(t).map_values(|s: Seq<char>| Some(s))
}

/// Compiles `pattern` with `regex::Regex::new` and collects, for each match
/// of `Regex::captures_iter` on `text`, capture group `group` (`Captures::get`).
///
/// Trusted: the result is named by `regex_group_captures`, a function of the
/// pattern, the text and the group alone. For the variable pattern and its
/// group 1, the pattern compiles and the result is stated: the regex crate
/// finds successive non-overlapping matches, leftmost first; a match of
/// `${`, name characters and `}` can only end at the `}` after the whole run
/// of name characters (`}` is not a name character), so the matches are the
/// variables that `variable_names` finds, each with its name captured.
#[verifier::external_body]
pub(crate) fn regex_capture_group(pattern: &str, text: &str, group: usize) -> (res: Option<Vec<Option<String>>>)
    ensures
        match res {
            None => regex_group_captures(pattern@, text@, group) is None,
            Some(v) => regex_group_captures(pattern@, text@, group) == Some(option_views(v@)),
        },
        match res {
            None => !(pattern@ == MESSAGE_VARIABLE_REGEX_PATTERN@ && group == 1),
            Some(v) => pattern@ == MESSAGE_VARIABLE_REGEX_PATTERN@ && group == 1 ==> option_views(v@)
                == variable_captures(text@),
        },
{
    match regex::Regex::new(pattern) {
        Ok(re) => Some(
            re.captures_iter(text).map(|c| c.get(group).map(|m| m.as_str().to_string())).collect(),
        ),
        Err(_) => None,
    }
}

/// The set of the names of the variables of `template`.
pub open spec fn template_variable_set(template: Seq<char>) -> Set<Seq<char>> {
    variable_names(template).to_set()
}

/// The character sequences of a sequence of strings.
pub open spec fn string_views(v: Seq<String>) -> Seq<Seq<char>> {
    v.map_values(|s: String| s@)
}

/// Each string comes strictly before the next: sorted, without duplicates.
pub open spec fn strictly_sorted(v: Seq<Seq<char>>) -> bool {
    forall|i: int, j: int| 0 <= i < j < v.len() ==> lex_lt(#[trigger] v[i], #[trigger] v[j])
}

/// Two strictly sorted sequences with the same elements are the same.
pub proof fn lemma_strictly_sorted_unique(a: Seq<Seq<char>>, b: Seq<Seq<char>>)
    requires
        strictly_sorted(a),
        strictly_sorted(b),
        a.to_set() == b.to_set(),
    ensures
        a == b,
    decreases a.len() + b.len(),
{
    if a.len() == 0 || b.len() == 0 {
        if a.len() > 0 {
            assert(a.to_set().contains(a[0]));
        }
        if b.len() > 0 {
            assert(b.to_set().contains(b[0]));
        }
        assert(a =~= b);
    } else {
        // The least elements agree.
        assert(a.to_set().contains(a[0]));
        assert(b.to_set().contains(b[0]));
        let ia = choose|i: int| 0 <= i < b.len() && b[i] == a[0];
        let ib = choose|i: int| 0 <= i < a.len() && a[i] == b[0];
        if a[0] != b[0] {
            if ia > 0 {
                assert(lex_lt(b[0], b[ia]));
            }
            if ib > 0 {
                assert(lex_lt(a[0], a[ib]));
            }
            lemma_lex_lt_total(a[0], b[0]);
        }
        let ra = a.drop_first();
        let rb = b.drop_first();
        assert forall|x: Seq<char>| ra.to_set().contains(x) implies rb.to_set().contains(x) by {
            let i = choose|i: int| 0 <= i < ra.len() && ra[i] == x;
            assert(a[i + 1] == x);
            assert(a.to_set().contains(x));
            let j = choose|j: int| 0 <= j < b.len() && b[j] == x;
            assert(lex_lt(a[0], a[i + 1]));
            if j == 0 {
                lemma_lex_lt_irreflexive(x);
            }
            assert(rb[j - 1] == x);
        }
        assert forall|x: Seq<char>| rb.to_set().contains(x) implies ra.to_set().contains(x) by {
            let i = choose|i: int| 0 <= i < rb.len() && rb[i] == x;
            assert(b[i + 1] == x);
            assert(b.to_set().contains(x));
            let j = choose|j: int| 0 <= j < a.len() && a[j] == x;
            assert(lex_lt(b[0], b[i + 1]));
            if j == 0 {
                lemma_lex_lt_irreflexive(x);
            }
            assert(ra[j - 1] == x);
        }
        assert(ra.to_set() =~= rb.to_set());
        lemma_strictly_sorted_unique(ra, rb);
        assert(a =~= seq![a[0]] + ra);
        assert(b =~= seq![b[0]] + rb);
    }
}

/// Inserts `x` into a strictly sorted vector, unless it is there already.
fn insert_sorted(v: &mut Vec<String>, x: String)
    requires
        strictly_sorted(string_views(old(v)@)),
    ensures
        strictly_sorted(string_views(final(v)@)),
        string_views(final(v)@).to_set() == string_views(old(v)@).to_set().insert(x@),
{
    let ghost old_views = string_views(v@);
    let n = v.len();
    let mut p: usize = 0;
    while p < n && str_lt(v[p].as_str(), x.as_str())
        invariant
            n == v@.len(),
            v@ == old(v)@,
            old_views == string_views(v@),
            p <= n,
            forall|i: int| 0 <= i < p ==> lex_lt(#[trigger] old_views[i], x@),
        decreases n - p,
    {
        p = p + 1;
    }
    if p < n && str_eq(v[p].as_str(), x.as_str()) {
        assert(old_views.to_set().insert(x@) =~= old_views.to_set()) by {
            assert(old_views[p as int] == x@);
            assert(old_views.to_set().contains(x@));
        }
        return;
    }
    proof {
        if p < n {
            lemma_lex_lt_total(old_views[p as int], x@);
        }
    }
    v.insert(p, x);
    proof {
        let nv = string_views(v@);
        assert(nv =~= old_views.insert(p as int, x@));
        assert forall|i: int, j: int| 0 <= i < j < nv.len() implies lex_lt(
            #[trigger] nv[i],
            #[trigger] nv[j],
        ) by {
            if j == p {
                assert(nv[i] == old_views[i]);
            } else if i == p {
                assert(nv[j] == old_views[j - 1]);
                if j - 1 > p {
                    assert(lex_lt(old_views[p as int], old_views[j - 1]));
                    lemma_lex_lt_transitive(x@, old_views[p as int], old_views[j - 1]);
                }
            } else if i < p && j < p {
                assert(nv[i] == old_views[i] && nv[j] == old_views[j]);
            } else if i < p {
                assert(nv[i] == old_views[i] && nv[j] == old_views[j - 1]);
            } else {
                assert(nv[i] == old_views[i - 1] && nv[j] == old_views[j - 1]);
            }
        }
        assert forall|s: Seq<char>| nv.to_set().contains(s) <==> old_views.to_set().insert(
            x@,
        ).contains(s) by {
            if nv.to_set().contains(s) {
                let k = choose|k: int| 0 <= k < nv.len() && nv[k] == s;
                if k < p {
                    assert(old_views[k] == s);
                } else if k > p {
                    assert(old_views[k - 1] == s);
                }
            }
            if old_views.to_set().contains(s) {
                let k = choose|k: int| 0 <= k < old_views.len() && old_views[k] == s;
                if k < p {
                    assert(nv[k] == s);
                } else {
                    assert(nv[k + 1] == s);
                }
            }
            if s == x@ {
                assert(nv[p as int] == s);
            }
        }
        assert(nv.to_set() =~= old_views.to_set().insert(x@));
    }
}

/// The names of the variables of a message template (the capture of
/// `MESSAGE_VARIABLE_REGEX_PATTERN`), sorted, each once.
pub fn message_template_variables(template: &str) -> (res: Vec<String>)
    ensures
        strictly_sorted(string_views(res@)),
        string_views(res@).to_set() == template_variable_set(template@),
{
    let captures = match regex_capture_group(MESSAGE_VARIABLE_REGEX_PATTERN, template, 1) {
        Some(c) => c,
        None => {
            proof {
                assert(false);
            }
            Vec::new()
        },
    };
    let ghost names = variable_names(template@);
    let ghost caps = option_views(captures@);
    let mut res: Vec<String> = Vec::new();
    let n = captures.len();
    assert(caps.len() == n);
    assert(names.len() == n);
    for i in 0..n
        invariant
            n == captures@.len(),
            caps == option_views(captures@),
            caps == variable_captures(template@),
            names == variable_names(template@),
            names.len() == n,
            strictly_sorted(string_views(res@)),
            string_views(res@).to_set() == Set::new(
                |s: Seq<char>| exists|k: int| 0 <= k < i && #[trigger] names[k] == s,
            ),
    {
        assert(caps[i as int] == Some(names[i as int]));
        let name = match &captures[i] {
            Some(s) => s.clone(),
            None => String::new(),
        };
        let ghost before = string_views(res@).to_set();
        insert_sorted(&mut res, name);
        proof {
            assert(names[i as int] == name@);
            assert(string_views(res@).to_set() =~= Set::new(
                |s: Seq<char>| exists|k: int| 0 <= k < i + 1 && #[trigger] names[k] == s,
            )) by {
                assert forall|s: Seq<char>|
                    (exists|k: int| 0 <= k < i + 1 && #[trigger] names[k] == s) implies before.insert(
                    name@,
                ).contains(s) by {
                    let k = choose|k: int| 0 <= k < i + 1 && #[trigger] names[k] == s;
                    if k < i {
                        assert(before.contains(s));
                    }
                }
            }
        }
    }
    proof {
        assert forall|s: Seq<char>| template_variable_set(template@).contains(s) <==> (exists|k: int|
            0 <= k < n && #[trigger] names[k] == s) by {
            if template_variable_set(template@).contains(s) {
                let k = choose|k: int| 0 <= k < names.len() && names[k] == s;
                assert(names[k] == s);
            }
        }
        assert(string_views(res@).to_set() =~= template_variable_set(template@));
    }
    res
}

// ---------------------------------------------------------------------------
// Format strings.

/// `s` with every `${` replaced by `{`, scanning left to right.
pub open spec fn replace_dollar_brace(s: Seq<char>) -> Seq<char>
    decreases s.len(),
{
    if s.len() == 0 {
        Seq::empty()
    } else if s.len() >= 2 && s[0] == '$' && s[1] == '{' {
        seq!['{'] + replace_dollar_brace(s.skip(2))
    } else {
        seq![s[0]] + replace_dollar_brace(s.drop_first())
    }
}

/// The format string of a message template: every `${` becomes `{`, so that
/// `${name}` becomes the named argument `{name}`.
pub fn template_format_string(template: &str) -> (res: String)
    ensures
        res@ == replace_dollar_brace(template@),
{
    let n = template.unicode_len();
    let mut out = String::new();
    let mut i: usize = 0;
    assert(template@.skip(0) =~= template@);
    while i < n
        invariant
            n == template@.len(),
            i <= n,
            replace_dollar_brace(template@) == out@ + replace_dollar_brace(template@.skip(i as int)),
        decreases n - i,
    {
        let c = template.get_char(i);
        let ghost rest = template@.skip(i as int);
        if c == '$' && i + 1 < n && template.get_char(i + 1) == '{' {
            push_char(&mut out, '{');
            proof {
                assert(rest.skip(2) =~= template@.skip(i + 2));
                assert(rest[0] == '$' && rest[1] == '{');
            }
            i = i + 2;
        } else {
            push_char(&mut out, c);
            proof {
                assert(rest.drop_first() =~= template@.skip(i + 1));
                assert(rest[0] == c);
            }
            i = i + 1;
        }
    }
    assert(template@.skip(n as int).len() == 0);
    assert(out@ =~= out@ + Seq::<char>::empty());
    out
}

/// A template without `$` is its own format string.
pub proof fn lemma_format_string_without_dollar(s: Seq<char>)
    requires
        forall|i: int| 0 <= i < s.len() ==> s[i] != '$',
    ensures
        replace_dollar_brace(s) == s,
    decreases s.len(),
{
    if s.len() > 0 {
        lemma_format_string_without_dollar(s.drop_first());
        assert(s =~= seq![s[0]] + s.drop_first());
    }
}

} // verus!
