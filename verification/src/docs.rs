use vstd::prelude::*;

use crate::bindings::replace_all;
use crate::chars::{char_is_whitespace, is_whitespace_char};
use crate::dpdk_env::first_index;
use crate::generator::CWrapper;
use crate::handlers::{string_literal, string_literal_text};
use crate::text::{chars_match_at, chars_of, push_char, push_str, seq_contains_seq, str_contains, string_from_chars};

verus! {

/// The pieces of `s` between its newlines: one more than it has newlines.
pub open spec fn newline_pieces(s: Seq<char>) -> Seq<Seq<char>>
    decreases s.len(),
{
    if s.len() == 0 {
        seq![Seq::empty()]
    } else {
        let p = newline_pieces(s.drop_last());
        if s.last() == '\n' {
            p.push(Seq::empty())
        } else {
            p.update(p.len() - 1, p.last().push(s.last()))
        }
    }
}

/// A line without the carriage return that ended it.
pub open spec fn strip_cr(l: Seq<char>) -> Seq<char> {
    if l.len() > 0 && l.last() == '\r' {
        l.drop_last()
    } else {
        l
    }
}

/// The lines of `s`, as `str::lines` gives them: split at each `\n` (a `\r`
/// before it dropped), with no line after a final `\n`.
pub open spec fn text_lines(s: Seq<char>) -> Seq<Seq<char>> {
    let p = newline_pieces(s);
    let ended = p.drop_last().map_values(|l: Seq<char>| strip_cr(l));
    if s.len() == 0 || s.last() == '\n' {
        ended
    } else {
        ended.push(p.last())
    }
}

/// See `text_lines`.
pub(crate) fn lines_of(s: &str) -> (r: Vec<String>)
    ensures
        r@.map_values(|l: String| l@) == text_lines(s@),
{
    let v = chars_of(s);
    let mut done: Vec<String> = Vec::new();
    let mut cur: Vec<char> = Vec::new();
    let mut i: usize = 0;
    proof {
        assert(v@.take(0) =~= Seq::<char>::empty());
        assert(cur@ =~= Seq::<char>::empty());
    }
    while i < v.len()
        invariant
            i <= v@.len(),
            v@ == s@,
            newline_pieces(v@.take(i as int)).len() >= 1,
            newline_pieces(v@.take(i as int)).drop_last().map_values(|l: Seq<char>| strip_cr(l)) == done@.map_values(
                |l: String| l@,
            ),
            newline_pieces(v@.take(i as int)).last() == cur@,
        decreases v@.len() - i,
    {
        let c = v[i];
        let ghost p0 = newline_pieces(v@.take(i as int));
        proof {
            assert(v@.take(i + 1).drop_last() =~= v@.take(i as int));
            assert(v@.take(i + 1).last() == c);
        }
        if c == '\n' {
            let n = cur.len();
            let line = if n > 0 && cur[n - 1] == '\r' {
                string_from_chars(cur.as_slice(), n - 1)
            } else {
                string_from_chars(cur.as_slice(), n)
            };
            proof {
                assert(line@ == strip_cr(cur@));
            }
            let ghost before = done@;
            done.push(line);
            cur = Vec::new();
            proof {
                let p1 = newline_pieces(v@.take(i + 1));
                assert(p1 == p0.push(Seq::<char>::empty()));
                assert(p1.drop_last() =~= p0);
                assert(p0 =~= p0.drop_last().push(p0.last()));
                assert(p0.map_values(|l: Seq<char>| strip_cr(l)) =~= p0.drop_last().map_values(|l: Seq<char>| strip_cr(l)).push(
                    strip_cr(p0.last()),
                ));
                assert(done@.map_values(|l: String| l@) =~= before.map_values(|l: String| l@).push(line@));
                assert(cur@ =~= Seq::<char>::empty());
            }
        } else {
            cur.push(c);
            proof {
                let p1 = newline_pieces(v@.take(i + 1));
                assert(p1 == p0.update(p0.len() - 1, p0.last().push(c)));
                assert(p1.drop_last() =~= p0.drop_last());
            }
        }
        i += 1;
    }
    proof {
        assert(v@.take(v@.len() as int) =~= v@);
    }
    if v.len() == 0 || v[v.len() - 1] == '\n' {
        done
    } else {
        let n = cur.len();
        let last = string_from_chars(cur.as_slice(), n);
        let ghost before = done@;
        done.push(last);
        proof {
            assert(cur@.subrange(0, n as int) =~= cur@);
            assert(done@.map_values(|l: String| l@) =~= before.map_values(|l: String| l@).push(last@));
        }
        done
    }
}

/// The length of the run of white space in `s` from position `p`.
pub open spec fn ws_run(s: Seq<char>, p: int) -> int
    decreases s.len() - p,
{
    if 0 <= p < s.len() && is_whitespace_char(s[p]) {
        1 + ws_run(s, p + 1)
    } else {
        0
    }
}

/// The length of the run of characters other than a space in `s` from
/// position `p`.
pub open spec fn word_run(s: Seq<char>, p: int) -> int
    decreases s.len() - p,
{
    if 0 <= p < s.len() && s[p] != ' ' {
        1 + word_run(s, p + 1)
    } else {
        0
    }
}

/// How much white space after position `a` the pattern `\s+([^ ]+)` takes,
/// at most `n`: the longest stretch after which a character other than a
/// space follows.
pub open spec fn ws_take(s: Seq<char>, a: int, n: int) -> Option<int>
    decreases n,
{
    if n < 1 {
        None
    } else if 0 <= a + n < s.len() && s[a + n] != ' ' {
        Some(n)
    } else {
        ws_take(s, a, n - 1)
    }
}

/// `@param` stands at position `i` of `s`.
pub open spec fn param_tag_at(s: Seq<char>, i: int) -> bool {
    0 <= i && i + 6 <= s.len() && s.subrange(i, i + 6) == "@param"@
}

/// The pattern `@param\s+([^ ]+)` matches at position `i`: the white space
/// it takes.
pub open spec fn param_match_at(s: Seq<char>, i: int) -> Option<int> {
    if param_tag_at(s, i) {
        ws_take(s, i + 6, ws_run(s, i + 6))
    } else {
        None
    }
}

/// The leftmost match of `@param\s+([^ ]+)` from position `from`: its start
/// and the white space it takes.
pub open spec fn first_param_match(s: Seq<char>, from: int) -> Option<(int, int)>
    decreases s.len() - from,
{
    if from < 0 || from >= s.len() {
        None
    } else {
        match param_match_at(s, from) {
            Some(j) => Some((from, j)),
            None => first_param_match(s, from + 1),
        }
    }
}

/// The first `@param <name>` of `s` turned into a list item: the regular
/// expression `@param\s+([^ ]+)` replaced once by ``"\n - `$1`"``.
pub open spec fn param_rewrite(s: Seq<char>) -> Seq<char> {
    match first_param_match(s, 0) {
        Some((i, j)) => {
            let a = i + 6 + j;
            let e = a + word_run(s, a);
            s.take(i) + "\n - `"@ + s.subrange(a, e) + "`"@ + s.skip(e)
        },
        None => s,
    }
}

proof fn lemma_ws_run_bounds(s: Seq<char>, p: int)
    requires
        0 <= p <= s.len(),
    ensures
        0 <= ws_run(s, p) <= s.len() - p,
        forall|k: int| p <= k < p + ws_run(s, p) ==> is_whitespace_char(#[trigger] s[k]),
        p + ws_run(s, p) < s.len() ==> !is_whitespace_char(s[p + ws_run(s, p)]),
    decreases s.len() - p,
{
    if p < s.len() && is_whitespace_char(s[p]) {
        lemma_ws_run_bounds(s, p + 1);
    }
}

proof fn lemma_word_run_bounds(s: Seq<char>, p: int)
    requires
        0 <= p <= s.len(),
    ensures
        0 <= word_run(s, p) <= s.len() - p,
        forall|k: int| p <= k < p + word_run(s, p) ==> #[trigger] s[k] != ' ',
        p + word_run(s, p) < s.len() ==> s[p + word_run(s, p)] == ' ',
    decreases s.len() - p,
{
    if p < s.len() && s[p] != ' ' {
        lemma_word_run_bounds(s, p + 1);
    }
}

proof fn lemma_ws_take_bounds(s: Seq<char>, a: int, n: int)
    ensures
        ws_take(s, a, n) matches Some(j) ==> 1 <= j <= n && 0 <= a + j < s.len() && s[a + j] != ' ',
    decreases n,
{
    if n >= 1 {
        lemma_ws_take_bounds(s, a, n - 1);
    }
}

/// The run of white space from `p` (see `ws_run`).
fn ws_run_exec(v: &Vec<char>, p: usize) -> (r: usize)
    requires
        p <= v@.len(),
    ensures
        r == ws_run(v@, p as int),
{
    proof {
        lemma_ws_run_bounds(v@, p as int);
    }
    let mut k: usize = p;
    while k < v.len() && char_is_whitespace(v[k])
        invariant
            p <= k <= v@.len(),
            ws_run(v@, p as int) == (k - p) + ws_run(v@, k as int),
        decreases v@.len() - k,
    {
        k += 1;
    }
    k - p
}

/// The run of characters other than a space from `p` (see `word_run`).
fn word_run_exec(v: &Vec<char>, p: usize) -> (r: usize)
    requires
        p <= v@.len(),
    ensures
        r == word_run(v@, p as int),
{
    proof {
        lemma_word_run_bounds(v@, p as int);
    }
    let mut k: usize = p;
    while k < v.len() && v[k] != ' '
        invariant
            p <= k <= v@.len(),
            word_run(v@, p as int) == (k - p) + word_run(v@, k as int),
        decreases v@.len() - k,
    {
        k += 1;
    }
    k - p
}

/// See `param_match_at`.
fn param_match_exec(v: &Vec<char>, i: usize) -> (r: Option<usize>)
    requires
        i < v@.len(),
    ensures
        match param_match_at(v@, i as int) {
            Some(j) => r == Some(j as usize),
            None => r is None,
        },
{
    let tag: Vec<char> = vec!['@', 'p', 'a', 'r', 'a', 'm'];
    proof {
        reveal_strlit("@param");
        assert(tag@ =~= "@param"@);
        assert(tag@.len() == 6);
    }
    if !chars_match_at(v.as_slice(), i, tag.as_slice()) {
        return None;
    }
    assert(param_tag_at(v@, i as int));
    let len = v.len();
    let a = i + 6;
    let n = ws_run_exec(v, a);
    proof {
        lemma_ws_run_bounds(v@, a as int);
    }
    let mut j: usize = n;
    while j >= 1
        invariant
            j <= n,
            a + n <= v@.len(),
            a == i + 6,
            param_tag_at(v@, i as int),
            n == ws_run(v@, a as int),
            len == v@.len(),
            ws_take(v@, a as int, n as int) == ws_take(v@, a as int, j as int),
        decreases j,
    {
        if a + j < v.len() && v[a + j] != ' ' {
            return Some(j);
        }
        j -= 1;
    }
    None
}

/// See `param_rewrite`.
pub(crate) fn param_rewrite_exec(s: &str) -> (r: String)
    ensures
        r@ == param_rewrite(s@),
{
    let v = chars_of(s);
    let mut i: usize = 0;
    while i < v.len()
        invariant
            v@ == s@,
            i <= v@.len(),
            first_param_match(v@, 0) == first_param_match(v@, i as int),
        decreases v@.len() - i,
    {
        match param_match_exec(&v, i) {
            Some(j) => {
                proof {
                    lemma_ws_take_bounds(v@, i + 6, ws_run(v@, i + 6));
                }
                let a = i + 6 + j;
                let m = word_run_exec(&v, a);
                proof {
                    lemma_word_run_bounds(v@, a as int);
                }
                let e = a + m;
                let mut out = string_from_chars(v.as_slice(), i);
                push_str(&mut out, "\n - `");
                let mut k: usize = a;
                while k < e
                    invariant
                        a <= k <= e <= v@.len(),
                        out@ == v@.take(i as int) + "\n - `"@ + v@.subrange(a as int, k as int),
                    decreases e - k,
                {
                    push_char(&mut out, v[k]);
                    k += 1;
                    assert(out@ =~= v@.take(i as int) + "\n - `"@ + v@.subrange(a as int, k as int));
                }
                push_str(&mut out, "`");
                let mut k2: usize = e;
                let ghost mid = out@;
                while k2 < v.len()
                    invariant
                        e <= k2 <= v@.len(),
                        out@ == mid + v@.subrange(e as int, k2 as int),
                    decreases v@.len() - k2,
                {
                    push_char(&mut out, v[k2]);
                    k2 += 1;
                    assert(out@ =~= mid + v@.subrange(e as int, k2 as int));
                }
                proof {
                    assert(v@.subrange(0, i as int) =~= v@.take(i as int));
                    assert(v@.subrange(e as int, v@.len() as int) =~= v@.skip(e as int));
                }
                return out;
            },
            None => {},
        }
        i += 1;
    }
    let mut out = String::new();
    push_str(&mut out, s);
    proof {
        assert(out@ =~= s@);
    }
    out
}

/// `rep` before each character of `s` and at its end: what `str::replace`
/// gives for an empty pattern.
pub open spec fn interleave(s: Seq<char>, rep: Seq<char>) -> Seq<char>
    decreases s.len(),
{
    if s.len() == 0 {
        rep
    } else {
        rep + seq![s[0]] + interleave(s.drop_first(), rep)
    }
}

/// `str::replace`: every non-overlapping occurrence of `pat`, left to right,
/// replaced by `rep` (for an empty pattern, see `interleave`).
pub open spec fn str_replace_text(s: Seq<char>, pat: Seq<char>, rep: Seq<char>) -> Seq<char> {
    if pat.len() == 0 {
        interleave(s, rep)
    } else {
        replace_all(s, pat, rep)
    }
}

/// See `str_replace_text`.
fn str_replace(s: &str, pat: &str, rep: &str) -> (r: String)
    ensures
        r@ == str_replace_text(s@, pat@, rep@),
{
    if pat.unicode_len() > 0 {
        return crate::bindings::replace_all_str(s, pat, rep);
    }
    let v = chars_of(s);
    let mut out = String::new();
    let mut i: usize = 0;
    proof {
        assert(v@.skip(0) =~= v@);
        assert(out@ + interleave(v@.skip(0), rep@) =~= interleave(s@, rep@));
    }
    while i < v.len()
        invariant
            v@ == s@,
            i <= v@.len(),
            out@ + interleave(v@.skip(i as int), rep@) == interleave(s@, rep@),
        decreases v@.len() - i,
    {
        let ghost before = out@;
        push_str(&mut out, rep);
        push_char(&mut out, v[i]);
        proof {
            assert(v@.skip(i as int).drop_first() =~= v@.skip(i + 1));
            assert(v@.skip(i as int)[0] == v@[i as int]);
            assert(out@ + interleave(v@.skip(i + 1), rep@) =~= before + interleave(v@.skip(i as int), rep@));
        }
        i += 1;
    }
    push_str(&mut out, rep);
    proof {
        assert(v@.skip(i as int) =~= Seq::<char>::empty());
    }
    out
}

/// Each wrapper's C type name replaced by its class name in backquotes, the
/// wrappers taken in order.
pub open spec fn class_names_in(d: Seq<char>, ws: Seq<CWrapper>) -> Seq<char>
    decreases ws.len(),
{
    if ws.len() == 0 {
        d
    } else {
        str_replace_text(class_names_in(d, ws.drop_last()), ws.last().c_type_name@, "`"@ + ws.last().class_name@ + "`"@)
    }
}

/// The name of a parameter `name: Type` of a generated method.
pub open spec fn param_name(p: Seq<char>) -> Seq<char> {
    match first_index(p, ':', 0) {
        Some(k) => p.take(k),
        None => p,
    }
}

/// A documentation line is kept: with no parameter list given, always;
/// otherwise unless it documents (`@param`) none of the parameters.
pub open spec fn doc_line_kept(line: Seq<char>, params: Option<Seq<Seq<char>>>) -> bool {
    match params {
        None => true,
        Some(ps) => !seq_contains_seq(line, "@param"@) || names_some_param(line, ps),
    }
}

/// The line holds a space followed by the name of one of the parameters.
pub open spec fn names_some_param(line: Seq<char>, ps: Seq<Seq<char>>) -> bool {
    exists|k: int| 0 <= k < ps.len() && seq_contains_seq(line, " "@ + param_name(#[trigger] ps[k]))
}

/// A kept documentation line as a method documents it: the first parameter
/// line opens a `# Parameters` section, a parameter becomes a list item,
/// `@return` a `# Return` section, paragraph tags line breaks, and C type
/// names the names of their classes.
pub open spec fn doc_line_text(line: Seq<char>, first_param: bool, ws: Seq<CWrapper>) -> Seq<char> {
    let d1 = if first_param && seq_contains_seq(line, "@param"@) {
        "# Parameters\n"@ + line
    } else {
        line
    };
    let d2 = if seq_contains_seq(d1, "@param"@) {
        param_rewrite(d1)
    } else {
        d1
    };
    let d3 = replace_all(replace_all(replace_all(d2, "@return"@, "\n# Return\n"@), "<p>"@, "\n"@), "</p>"@, "\n"@);
    class_names_in(d3, ws)
}

/// The lines of the documentation texts, in order.
pub open spec fn doc_text_lines(docs: Seq<Seq<char>>) -> Seq<Seq<char>>
    decreases docs.len(),
{
    if docs.len() == 0 {
        Seq::empty()
    } else {
        doc_text_lines(docs.drop_last()) + text_lines(docs.last())
    }
}

/// No line before position `i` documents a parameter.
pub open spec fn no_param_before(lines: Seq<Seq<char>>, i: int) -> bool {
    forall|k: int| 0 <= k < i ==> !seq_contains_seq(#[trigger] lines[k], "@param"@)
}

/// The documentation of a generated method, line by line: whether the line
/// marks the method deprecated, and its text.
pub open spec fn method_doc_lines_text(docs: Seq<Seq<char>>, ws: Seq<CWrapper>, params: Option<Seq<Seq<char>>>) -> Seq<(bool, Seq<char>)> {
    kept_doc_lines(doc_text_lines(docs).filter(|l: Seq<char>| doc_line_kept(l, params)), ws)
}

/// The kept lines as a method documents them (see `doc_line_text`), each
/// with whether it marks the method deprecated.
pub open spec fn kept_doc_lines(lines: Seq<Seq<char>>, ws: Seq<CWrapper>) -> Seq<(bool, Seq<char>)> {
    Seq::new(lines.len(), |i: int| {
        let t = doc_line_text(lines[i], no_param_before(lines, i), ws);
        (seq_contains_seq(t, "@deprecated"@), t)
    })
}

/// The attributes the documentation lines give a method.
pub open spec fn method_docs_text(lines: Seq<(bool, Seq<char>)>) -> Seq<char>
    decreases lines.len(),
{
    if lines.len() == 0 {
        Seq::empty()
    } else {
        method_docs_text(lines.drop_last()) + (if lines.last().0 {
            "#[deprecated]\n"@
        } else {
            Seq::empty()
        }) + "#[doc = "@ + string_literal_text(lines.last().1) + "]\n"@
    }
}

proof fn lemma_kept_doc_lines_push(lines: Seq<Seq<char>>, l: Seq<char>, ws: Seq<CWrapper>)
    ensures
        kept_doc_lines(lines.push(l), ws) == kept_doc_lines(lines, ws).push({
            let t = doc_line_text(l, no_param_before(lines, lines.len() as int), ws);
            (seq_contains_seq(t, "@deprecated"@), t)
        }),
{
    let a = kept_doc_lines(lines.push(l), ws);
    let b = kept_doc_lines(lines, ws).push({
        let t = doc_line_text(l, no_param_before(lines, lines.len() as int), ws);
        (seq_contains_seq(t, "@deprecated"@), t)
    });
    assert forall|i: int| 0 <= i < lines.len() + 1 implies a[i] == b[i] by {
        assert(no_param_before(lines.push(l), i) == no_param_before(lines, i)) by {
            assert forall|k: int| 0 <= k < i implies lines.push(l)[k] == lines[k] by {}
        }
        if i == lines.len() {
            assert(lines.push(l)[i] == l);
        } else {
            assert(lines.push(l)[i] == lines[i]);
        }
    }
    assert(a =~= b);
}

/// See `class_names_in`.
fn class_names_exec(d: String, ws: &[CWrapper]) -> (r: String)
    ensures
        r@ == class_names_in(d@, ws@),
{
    let mut out = d;
    let ghost d0 = out@;
    let mut i: usize = 0;
    proof {
        assert(ws@.take(0) =~= Seq::<CWrapper>::empty());
    }
    while i < ws.len()
        invariant
            i <= ws@.len(),
            out@ == class_names_in(d0, ws@.take(i as int)),
        decreases ws@.len() - i,
    {
        let w = &ws[i];
        let mut rep = String::new();
        push_str(&mut rep, "`");
        push_str(&mut rep, w.class_name.as_str());
        push_str(&mut rep, "`");
        out = str_replace(out.as_str(), w.c_type_name.as_str(), rep.as_str());
        proof {
            assert(ws@.take(i + 1).drop_last() =~= ws@.take(i as int));
            assert(ws@.take(i + 1).last() == ws@[i as int]);
            assert(rep@ =~= "`"@ + w.class_name@ + "`"@);
        }
        i += 1;
    }
    proof {
        assert(ws@.take(ws@.len() as int) =~= ws@);
    }
    out
}

/// See `replace_all`.
fn replace_str(s: String, pat: &str, rep: &str) -> (r: String)
    ensures
        r@ == replace_all(s@, pat@, rep@),
{
    crate::bindings::replace_all_str(s.as_str(), pat, rep)
}

/// See `doc_line_text`.
fn doc_line_exec(line: &str, first_param: bool, ws: &[CWrapper]) -> (r: String)
    ensures
        r@ == doc_line_text(line@, first_param, ws@),
{
    proof {
        reveal_strlit("@param");
        reveal_strlit("# Parameters\n");
    }
    let mut d = String::new();
    if first_param && str_contains(line, "@param") {
        push_str(&mut d, "# Parameters\n");
    }
    push_str(&mut d, line);
    if str_contains(d.as_str(), "@param") {
        d = param_rewrite_exec(d.as_str());
    }
    d = replace_str(d, "@return", "\n# Return\n");
    d = replace_str(d, "<p>", "\n");
    d = replace_str(d, "</p>", "\n");
    class_names_exec(d, ws)
}

/// The views of an optional parameter list.
pub open spec fn param_views(params: Option<&[String]>) -> Option<Seq<Seq<char>>> {
    match params {
        Some(p) => Some(p@.map_values(|t: String| t@)),
        None => None,
    }
}

/// See `param_name`.
fn param_name_exec(p: &str) -> (r: String)
    ensures
        r@ == param_name(p@),
{
    let v = chars_of(p);
    let mut k: usize = 0;
    while k < v.len()
        invariant
            v@ == p@,
            k <= v@.len(),
            first_index(v@, ':', 0) == first_index(v@, ':', k as int),
        decreases v@.len() - k,
    {
        if v[k] == ':' {
            return string_from_chars(v.as_slice(), k);
        }
        k += 1;
    }
    proof {
        assert(v@.subrange(0, v@.len() as int) =~= v@);
    }
    string_from_chars(v.as_slice(), v.len())
}

/// See `doc_line_kept`.
fn doc_line_kept_exec(line: &str, params: Option<&[String]>) -> (r: bool)
    ensures
        r == doc_line_kept(line@, param_views(params)),
{
    proof {
        reveal_strlit("@param");
    }
    match params {
        None => true,
        Some(ps) => {
            if !str_contains(line, "@param") {
                return true;
            }
            let ghost pv = ps@.map_values(|t: String| t@);
            let mut k: usize = 0;
            while k < ps.len()
                invariant
                    k <= ps@.len(),
                    pv == ps@.map_values(|t: String| t@),
                    param_views(params) == Some(pv),
                    seq_contains_seq(line@, "@param"@),
                    forall|j: int| 0 <= j < k ==> !seq_contains_seq(line@, " "@ + param_name(#[trigger] pv[j])),
                decreases ps@.len() - k,
            {
                let n = param_name_exec(ps[k].as_str());
                let mut needle = String::new();
                push_str(&mut needle, " ");
                push_str(&mut needle, n.as_str());
                if str_contains(line, needle.as_str()) {
                    proof {
                        assert(pv[k as int] == ps@[k as int]@);
                        assert(needle@ =~= " "@ + param_name(pv[k as int]));
                        assert(seq_contains_seq(line@, " "@ + param_name(pv[k as int])));
                        assert(0 <= k < pv.len());
                    }
                    return true;
                }
                proof {
                    assert(pv[k as int] == ps@[k as int]@);
                    assert(needle@ =~= " "@ + param_name(pv[k as int]));
                }
                k += 1;
            }
            false
        },
    }
}

/// The documentation of a generated method, line by line (see
/// `method_doc_lines_text`): each line of the C documentation texts, in
/// order, unless it documents none of the parameters `params` (each
/// `name: Type`; every line is kept when none are given), with whether it
/// marks the method deprecated.
pub fn method_doc_lines(docs: &[String], wrappers: &[CWrapper], params: Option<&[String]>) -> (r: Vec<(bool, String)>)
    ensures
        r@.map_values(|p: (bool, String)| (p.0, p.1@)) == method_doc_lines_text(
            docs@.map_values(|d: String| d@),
            wrappers@,
            param_views(params),
        ),
{
    let ghost dv = docs@.map_values(|d: String| d@);
    let ghost pred = |l: Seq<char>| doc_line_kept(l, param_views(params));
    let mut out: Vec<(bool, String)> = Vec::new();
    let mut first = true;
    let ghost mut kept: Seq<Seq<char>> = Seq::empty();
    let mut di: usize = 0;
    proof {
        assert(dv.take(0) =~= Seq::<Seq<char>>::empty());
        assert(doc_text_lines(dv.take(0)).filter(pred) =~= Seq::<Seq<char>>::empty());
        assert(out@.map_values(|p: (bool, String)| (p.0, p.1@)) =~= kept_doc_lines(kept, wrappers@));
    }
    while di < docs.len()
        invariant
            di <= docs@.len(),
            dv == docs@.map_values(|d: String| d@),
            pred == (|l: Seq<char>| doc_line_kept(l, param_views(params))),
            kept == doc_text_lines(dv.take(di as int)).filter(pred),
            first == no_param_before(kept, kept.len() as int),
            out@.map_values(|p: (bool, String)| (p.0, p.1@)) == kept_doc_lines(kept, wrappers@),
        decreases docs@.len() - di,
    {
        let lines = lines_of(docs[di].as_str());
        let ghost lv = lines@.map_values(|l: String| l@);
        let ghost base = doc_text_lines(dv.take(di as int));
        let mut li: usize = 0;
        proof {
            assert(lv.take(0) =~= Seq::<Seq<char>>::empty());
            assert(base + lv.take(0) =~= base);
        }
        while li < lines.len()
            invariant
                li <= lines@.len(),
                lv == lines@.map_values(|l: String| l@),
                pred == (|l: Seq<char>| doc_line_kept(l, param_views(params))),
                kept == (base + lv.take(li as int)).filter(pred),
                first == no_param_before(kept, kept.len() as int),
                out@.map_values(|p: (bool, String)| (p.0, p.1@)) == kept_doc_lines(kept, wrappers@),
            decreases lines@.len() - li,
        {
            let line = lines[li].as_str();
            let keep = doc_line_kept_exec(line, params);
            proof {
                reveal_with_fuel(Seq::<_>::filter, 1);
                assert(lv[li as int] == line@);
                assert((base + lv.take(li + 1)).drop_last() =~= base + lv.take(li as int));
                assert((base + lv.take(li + 1)).last() == line@);
            }
            if keep {
                let t = doc_line_exec(line, first, wrappers);
                let dep = str_contains(t.as_str(), "@deprecated");
                proof {
                    reveal_strlit("@deprecated");
                    lemma_kept_doc_lines_push(kept, line@, wrappers@);
                }
                let ghost before = out@;
                let has_param = str_contains(line, "@param");
                proof {
                    reveal_strlit("@param");
                }
                out.push((dep, t));
                proof {
                    assert(out@.map_values(|p: (bool, String)| (p.0, p.1@)) =~= before.map_values(|p: (bool, String)| (p.0, p.1@)).push(
                        (dep, t@),
                    ));
                    let k2 = kept.push(line@);
                    assert forall|k: int| 0 <= k < k2.len() implies !seq_contains_seq(#[trigger] k2[k], "@param"@) <== (first && !has_param) by {
                        if k < kept.len() {
                            assert(k2[k] == kept[k]);
                        }
                    }
                    if !(first && !has_param) {
                        if !first {
                            let w = choose|k: int| 0 <= k < kept.len() && seq_contains_seq(#[trigger] kept[k], "@param"@);
                            assert(k2[w] == kept[w]);
                        } else {
                            assert(k2[kept.len() as int] == line@);
                        }
                    }
                    kept = k2;
                }
                first = first && !has_param;
            }
            li += 1;
        }
        proof {
            assert(lv.take(lines@.len() as int) =~= lv);
            assert(dv.take(di + 1).drop_last() =~= dv.take(di as int));
            assert(dv.take(di + 1).last() == docs@[di as int]@);
        }
        di += 1;
    }
    proof {
        assert(dv.take(docs@.len() as int) =~= dv);
    }
    out
}

/// See `method_docs_text`.
pub(crate) fn method_docs(lines: &Vec<(bool, String)>) -> (r: String)
    ensures
        r@ == method_docs_text(lines@.map_values(|p: (bool, String)| (p.0, p.1@))),
{
    let ghost views = lines@.map_values(|p: (bool, String)| (p.0, p.1@));
    let mut out = String::new();
    let mut i: usize = 0;
    while i < lines.len()
        invariant
            i <= lines@.len(),
            views == lines@.map_values(|p: (bool, String)| (p.0, p.1@)),
            out@ == method_docs_text(views.take(i as int)),
        decreases lines@.len() - i,
    {
        let ghost before = out@;
        if lines[i].0 {
            push_str(&mut out, "#[deprecated]\n");
        }
        let q = string_literal(lines[i].1.as_str());
        push_str(&mut out, "#[doc = ");
        push_str(&mut out, q.as_str());
        push_str(&mut out, "]\n");
        proof {
            let t = views.take(i + 1);
            assert(t.drop_last() =~= views.take(i as int));
            assert(t.last() == views[i as int]);
            assert(out@ =~= before + (if t.last().0 { "#[deprecated]\n"@ } else { Seq::empty() }) + "#[doc = "@
                + string_literal_text(t.last().1) + "]\n"@);
        }
        i += 1;
    }
    assert(views.take(lines@.len() as int) =~= views);
    out
}

/// `s` with the first occurrence of a non-empty `pat` replaced by `rep`
/// (`str::replacen` with a count of one).
pub open spec fn replace_first(s: Seq<char>, pat: Seq<char>, rep: Seq<char>) -> Seq<char>
    decreases s.len(),
{
    if pat.len() == 0 || s.len() < pat.len() {
        s
    } else if s.take(pat.len() as int) == pat {
        rep + s.skip(pat.len() as int)
    } else {
        seq![s[0]] + replace_first(s.drop_first(), pat, rep)
    }
}

/// A documentation line names the out-parameter.
pub open spec fn names_out_param(t: Seq<char>) -> bool {
    seq_contains_seq(t, "out param"@)
}

/// A documentation line is a parameter list item that opens the parameter
/// section of a method whose out-parameter is returned.
pub open spec fn opens_params(t: Seq<char>) -> bool {
    !names_out_param(t) && seq_contains_seq(t, "- `"@)
}

/// The lines of a method whose out-parameter is returned: without its
/// `# Return` lines and `# Parameters` titles; the out-parameter's item
/// becomes the `# Return` section, and the first other parameter item
/// opens the `# Parameters` section again.
pub open spec fn out_param_doc_lines(lines: Seq<(bool, Seq<char>)>) -> Seq<(bool, Seq<char>)> {
    let kept = lines.filter(|l: (bool, Seq<char>)| !seq_contains_seq(l.1, "# Return"@));
    let texts = kept.map_values(|l: (bool, Seq<char>)| replace_all(l.1, "# Parameters"@, Seq::empty()));
    Seq::new(kept.len(), |i: int| {
        let t = texts[i];
        (kept[i].0, if names_out_param(t) {
            replace_all(t, "- `"@, "\n# Return\n`"@)
        } else if opens_params(t) && (forall|k: int| 0 <= k < i ==> !opens_params(#[trigger] texts[k])) {
            replace_first(t, "- `"@, "# Parameters\n- `"@)
        } else {
            t
        })
    })
}

/// See `replace_first`.
fn replace_first_exec(s: &str, pat: &str, rep: &str) -> (r: String)
    ensures
        r@ == replace_first(s@, pat@, rep@),
{
    let v = chars_of(s);
    let p = chars_of(pat);
    let n = v.len();
    let m = p.len();
    let mut i: usize = 0;
    let mut out = String::new();
    proof {
        assert(v@.skip(0) =~= v@);
        assert(out@ + replace_first(v@.skip(0), pat@, rep@) =~= replace_first(s@, pat@, rep@));
    }
    if m == 0 {
        push_str(&mut out, s);
        return out;
    }
    while i < n
        invariant
            v@ == s@,
            p@ == pat@,
            n == v@.len(),
            m == p@.len(),
            m > 0,
            i <= n,
            out@ + replace_first(v@.skip(i as int), pat@, rep@) == replace_first(s@, pat@, rep@),
        decreases n - i,
    {
        let ghost rest = v@.skip(i as int);
        if m <= n - i && chars_match_at(v.as_slice(), i, p.as_slice()) {
            proof {
                assert(rest.take(m as int) =~= v@.subrange(i as int, i + m));
                assert(rest.skip(m as int) =~= v@.skip(i + m));
            }
            push_str(&mut out, rep);
            let mut k: usize = i + m;
            let ghost mid = out@;
            while k < n
                invariant
                    i + m <= k <= n,
                    n == v@.len(),
                    out@ == mid + v@.subrange(i + m, k as int),
                decreases n - k,
            {
                push_char(&mut out, v[k]);
                k += 1;
                assert(out@ =~= mid + v@.subrange(i + m, k as int));
            }
            proof {
                assert(v@.subrange(i + m, n as int) =~= v@.skip(i + m));
            }
            return out;
        }
        proof {
            if m <= n - i {
                assert(rest.take(m as int) =~= v@.subrange(i as int, i + m));
            }
            assert(rest.drop_first() =~= v@.skip(i + 1));
            assert(rest[0] == v@[i as int]);
        }
        let ghost before = out@;
        push_char(&mut out, v[i]);
        proof {
            assert(out@ + replace_first(v@.skip(i + 1), pat@, rep@) =~= before + replace_first(rest, pat@, rep@));
        }
        i += 1;
    }
    proof {
        assert(v@.skip(n as int) =~= Seq::<char>::empty());
    }
    out
}

/// See `out_param_doc_lines`.
pub(crate) fn out_param_docs(lines: Vec<(bool, String)>) -> (r: Vec<(bool, String)>)
    ensures
        r@.map_values(|p: (bool, String)| (p.0, p.1@)) == out_param_doc_lines(lines@.map_values(|p: (bool, String)| (p.0, p.1@))),
{
    proof {
        reveal_strlit("# Return");
        reveal_strlit("out param");
        reveal_strlit("- `");
    }
    let ghost lv = lines@.map_values(|p: (bool, String)| (p.0, p.1@));
    let ghost pred = |l: (bool, Seq<char>)| !seq_contains_seq(l.1, "# Return"@);
    let ghost mut kept: Seq<(bool, Seq<char>)> = Seq::empty();
    let mut out: Vec<(bool, String)> = Vec::new();
    let mut first = true;
    let mut i: usize = 0;
    while i < lines.len()
        invariant
            i <= lines@.len(),
            lv == lines@.map_values(|p: (bool, String)| (p.0, p.1@)),
            pred == (|l: (bool, Seq<char>)| !seq_contains_seq(l.1, "# Return"@)),
            kept == lv.take(i as int).filter(pred),
            out@.map_values(|p: (bool, String)| (p.0, p.1@)) == out_param_doc_lines(lv.take(i as int)),
            first == (forall|k: int| 0 <= k < kept.len() ==> !opens_params(
                #[trigger] replace_all(kept[k].1, "# Parameters"@, Seq::empty()),
            )),
        decreases lines@.len() - i,
    {
        let d = lines[i].0;
        let text = lines[i].1.as_str();
        proof {
            reveal_with_fuel(Seq::<_>::filter, 1);
            assert(lv.take(i + 1).drop_last() =~= lv.take(i as int));
            assert(lv.take(i + 1).last() == (d, text@));
        }
        if !str_contains(text, "# Return") {
            let t = crate::bindings::replace_all_str(text, "# Parameters", "");
            let op = !str_contains(t.as_str(), "out param") && str_contains(t.as_str(), "- `");
            let u = if str_contains(t.as_str(), "out param") {
                crate::bindings::replace_all_str(t.as_str(), "- `", "\n# Return\n`")
            } else if op && first {
                replace_first_exec(t.as_str(), "- `", "# Parameters\n- `")
            } else {
                t
            };
            let ghost before = out@;
            out.push((d, u));
            proof {
                let k2 = kept.push((d, text@));
                let old_all = out_param_doc_lines(lv.take(i as int));
                let new_all = out_param_doc_lines(lv.take(i + 1));
                assert(lv.take(i + 1).filter(pred) == k2);
                let texts2 = k2.map_values(|l: (bool, Seq<char>)| replace_all(l.1, "# Parameters"@, Seq::empty()));
                let texts1 = kept.map_values(|l: (bool, Seq<char>)| replace_all(l.1, "# Parameters"@, Seq::empty()));
                assert forall|j: int| 0 <= j < kept.len() implies texts2[j] == texts1[j] by {
                    assert(k2[j] == kept[j]);
                }
                assert forall|j: int| 0 <= j < kept.len() implies new_all[j] == old_all[j] by {
                    assert(k2[j] == kept[j]);
                    assert forall|k: int| 0 <= k < j implies texts2[k] == texts1[k] by {}
                }
                reveal_strlit("");
                reveal_strlit("# Parameters");
                assert(k2[kept.len() as int] == (d, text@));
                assert(""@ =~= Seq::<char>::empty());
                assert(texts2[kept.len() as int] == t@);
                if first {
                    assert forall|k: int| 0 <= k < kept.len() implies !opens_params(#[trigger] texts2[k]) by {
                        assert(k2[k] == kept[k]);
                    }
                } else {
                    let w = choose|k: int| 0 <= k < kept.len() && opens_params(
                        #[trigger] replace_all(kept[k].1, "# Parameters"@, Seq::empty()),
                    );
                    assert(k2[w] == kept[w]);
                    assert(opens_params(texts2[w]));
                }
                assert(new_all[kept.len() as int] == (d, u@));
                assert(out@.map_values(|p: (bool, String)| (p.0, p.1@)) =~= before.map_values(|p: (bool, String)| (p.0, p.1@)).push((d, u@)));
                assert(new_all.len() == kept.len() + 1);
                assert(old_all.len() == kept.len());
                assert(out@.map_values(|p: (bool, String)| (p.0, p.1@)) =~= new_all);
                assert forall|k: int| 0 <= k < k2.len() implies #[trigger] replace_all(k2[k].1, "# Parameters"@, Seq::empty()) == texts2[k] by {}
                kept = k2;
            }
            first = first && !op;
        } else {
            proof {
                assert(lv.take(i + 1).filter(pred) == kept);
                assert(out_param_doc_lines(lv.take(i + 1)) =~= out_param_doc_lines(lv.take(i as int)));
            }
        }
        i += 1;
    }
    proof {
        assert(lv.take(lines@.len() as int) =~= lv);
    }
    out
}

/// See `doc_text_lines`.
pub(crate) fn doc_lines(docs: &[String]) -> (r: Vec<String>)
    ensures
        r@.map_values(|l: String| l@) == doc_text_lines(docs@.map_values(|d: String| d@)),
{
    let ghost dv = docs@.map_values(|d: String| d@);
    let mut out: Vec<String> = Vec::new();
    let mut i: usize = 0;
    proof {
        assert(dv.take(0) =~= Seq::<Seq<char>>::empty());
        assert(out@.map_values(|l: String| l@) =~= Seq::<Seq<char>>::empty());
    }
    while i < docs.len()
        invariant
            i <= docs@.len(),
            dv == docs@.map_values(|d: String| d@),
            out@.map_values(|l: String| l@) == doc_text_lines(dv.take(i as int)),
        decreases docs@.len() - i,
    {
        let mut lines = lines_of(docs[i].as_str());
        let ghost before = out@.map_values(|l: String| l@);
        let ghost lv = lines@.map_values(|l: String| l@);
        out.append(&mut lines);
        proof {
            assert(out@.map_values(|l: String| l@) =~= before + lv);
            assert(dv.take(i + 1).drop_last() =~= dv.take(i as int));
            assert(dv.take(i + 1).last() == docs@[i as int]@);
        }
        i += 1;
    }
    proof {
        assert(dv.take(docs@.len() as int) =~= dv);
    }
    out
}

} // verus!
