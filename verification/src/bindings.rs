use vstd::prelude::*;

use crate::chars::trimmed;
use crate::dpdk_env::first_index;
use crate::generator::{Arg, ArgProcessing, CWrapper};
use crate::parser::{pascal_case, possible_wrappers};
use crate::text::{seq_starts_with, str_eq, str_starts_with};

verus! {

/// A callback type of the C API: its arguments (grouped as the parser groups
/// them), its return type and docs.
pub struct CHandler {
    pub c_type_name: String,
    pub args: Vec<Arg>,
    pub return_type: Arg,
    pub docs: Vec<String>,
}

/// `s` with every non-overlapping occurrence of a non-empty `pat`, scanning
/// left to right, replaced by `rep`, as `str::replace` does; an empty pattern
/// leaves `s` as it is (which is what `str::replace` gives when `rep` is empty
/// too).
pub open spec fn replace_all(s: Seq<char>, pat: Seq<char>, rep: Seq<char>) -> Seq<char>
    decreases s.len(),
{
    if pat.len() == 0 || s.len() < pat.len() {
        s
    } else if s.take(pat.len() as int) == pat {
        rep + replace_all(s.skip(pat.len() as int), pat, rep)
    } else {
        seq![s[0]] + replace_all(s.drop_first(), pat, rep)
    }
}

/// The text after the last space (`split(' ').last()`).
pub open spec fn last_word(s: Seq<char>) -> Seq<char>
    decreases s.len(),
{
    if s.len() == 0 {
        s
    } else if s.last() == ' ' {
        Seq::empty()
    } else {
        last_word(s.drop_last()).push(s.last())
    }
}

/// Some name among `names` equals `n`.
pub open spec fn has_name(names: Seq<Seq<char>>, n: Seq<char>) -> bool {
    exists|i: int| 0 <= i < names.len() && names[i] == n
}

/// The first candidate that is one of `names`.
pub open spec fn first_known(cands: Seq<Seq<char>>, names: Seq<Seq<char>>) -> Option<Seq<char>>
    decreases cands.len(),
{
    if cands.len() == 0 {
        None
    } else if has_name(names, cands[0]) {
        Some(cands[0])
    } else {
        first_known(cands.drop_first(), names)
    }
}

/// The texts of a list of strings.
pub open spec fn texts(v: Seq<String>) -> Seq<Seq<char>> {
    v.map_values(|s: String| s@)
}

/// An argument the owner search skips: a mutable pointer to a primitive.
pub open spec fn skipped_arg(a: Arg) -> bool {
    a.spec_is_mut_pointer() && a.spec_is_primitive()
}

/// The index of the first argument at or after `from` that is not skipped.
pub open spec fn first_owner_arg(args: Seq<Arg>, from: int) -> Option<int>
    decreases args.len() - from,
{
    if from < 0 || from >= args.len() {
        None
    } else if !skipped_arg(args[from]) {
        Some(from)
    } else {
        first_owner_arg(args, from + 1)
    }
}

/// The wrapper a C function belongs to: the type (its last word) of its first
/// argument that is not a mutable pointer to a primitive, when that type is a
/// wrapper; otherwise the longest wrapper name that prefixes the function name.
pub open spec fn method_owner(args: Seq<Arg>, fn_name: Seq<char>, names: Seq<Seq<char>>) -> Option<
    Seq<char>,
> {
    match first_owner_arg(args, 0) {
        Some(k) => if has_name(names, last_word(args[k].c_type@)) {
            Some(last_word(args[k].c_type@))
        } else {
            first_known(possible_wrappers(fn_name), names)
        },
        None => first_known(possible_wrappers(fn_name), names),
    }
}

/// The return type text of a callback signature: the output tokens trimmed,
/// without a leading `-> `, and `()` when nothing is left.
pub open spec fn handler_return_text(output: Seq<char>) -> Seq<char> {
    let t = trimmed(output);
    let u = if seq_starts_with(t, "-> "@) {
        t.skip(3)
    } else {
        t
    };
    if u.len() == 0 {
        "()"@
    } else {
        u
    }
}

/// The number of `c_void` arguments.
pub open spec fn c_void_count(args: Seq<Arg>) -> nat
    decreases args.len(),
{
    if args.len() == 0 {
        0
    } else {
        c_void_count(args.drop_last()) + if args.last().spec_is_c_void() {
            1nat
        } else {
            0nat
        }
    }
}

/// The prefixes of wrapper types left out of the bindings: media-driver
/// internals that do not follow the naming convention.
pub open spec fn excluded_wrapper_prefixes() -> Seq<Seq<char>> {
    seq![
        "aeron_thread"@,
        "aeron_command"@,
        "aeron_executor"@,
        "aeron_name_resolver"@,
        "aeron_udp_channel_transport"@,
        "aeron_udp_transport"@,
    ]
}

/// The prefixes of callback types left out of the bindings.
pub open spec fn excluded_handler_prefixes() -> Seq<Seq<char>> {
    seq!["aeron_udp_channel"@, "aeron_udp_transport"@]
}

/// No prefix of the list starts `s`.
pub open spec fn starts_with_none(s: Seq<char>, prefixes: Seq<Seq<char>>) -> bool {
    forall|i: int| 0 <= i < prefixes.len() ==> !seq_starts_with(s, #[trigger] prefixes[i])
}

/// Replaces every occurrence of `pat` in `s` by `rep`.
pub fn replace_all_str(s: &str, pat: &str, rep: &str) -> (r: String)
    ensures
        r@ == replace_all(s@, pat@, rep@),
{
    let v = crate::text::chars_of(s);
    let p = crate::text::chars_of(pat);
    let n = v.len();
    let m = p.len();
    let mut out = String::new();
    let mut i: usize = 0;
    proof {
        assert(v@.skip(0) =~= v@);
        assert(out@ + replace_all(v@.skip(0), pat@, rep@) =~= replace_all(s@, pat@, rep@));
    }
    while i < n
        invariant
            i <= n == v@.len(),
            m == p@.len(),
            v@ == s@,
            p@ == pat@,
            replace_all(s@, pat@, rep@) == out@ + replace_all(v@.skip(i as int), pat@, rep@),
        decreases n - i,
    {
        let ghost rest = v@.skip(i as int);
        if m > 0 && m <= n - i && crate::text::chars_match_at(v.as_slice(), i, p.as_slice()) {
            proof {
                assert(rest.take(m as int) =~= v@.subrange(i as int, i + m));
                assert(rest.skip(m as int) =~= v@.skip(i + m));
                assert(out@ + (rep@ + replace_all(rest.skip(m as int), pat@, rep@)) =~= (out@ + rep@)
                    + replace_all(v@.skip(i + m), pat@, rep@));
            }
            crate::text::push_str(&mut out, rep);
            i += m;
        } else {
            proof {
                if m > 0 && m <= n - i {
                    assert(rest.take(m as int) =~= v@.subrange(i as int, i + m));
                }
                if m == 0 || rest.len() < m {
                    assert(replace_all(rest, pat@, rep@) == rest);
                    assert(rest.drop_first() =~= v@.skip(i + 1));
                    assert(rest =~= seq![v@[i as int]] + v@.skip(i + 1));
                }
                assert(rest.drop_first() =~= v@.skip(i + 1));
                assert(rest[0] == v@[i as int]);
            }
            if m == 0 || m > n - i {
                let ghost before = out@;
                while i < n
                    invariant
                        i <= n == v@.len(),
                        m == p@.len(),
                        v@ == s@,
                        p@ == pat@,
                        m == 0 || m > n - i,
                        replace_all(s@, pat@, rep@) == out@ + v@.skip(i as int),
                    decreases n - i,
                {
                    proof {
                        assert(v@.skip(i as int) =~= seq![v@[i as int]] + v@.skip(i + 1));
                        assert(out@ + v@.skip(i as int) =~= out@.push(v@[i as int]) + v@.skip(
                            i + 1,
                        ));
                    }
                    crate::text::push_char(&mut out, v[i]);
                    i += 1;
                }
                proof {
                    assert(v@.skip(i as int) =~= Seq::<char>::empty());
                    assert(out@ + v@.skip(i as int) =~= out@);
                    assert(replace_all(v@.skip(i as int), pat@, rep@) =~= Seq::<char>::empty());
                }
            } else {
                proof {
                    assert(out@ + (seq![v@[i as int]] + replace_all(v@.skip(i + 1), pat@, rep@))
                        =~= out@.push(v@[i as int]) + replace_all(v@.skip(i + 1), pat@, rep@));
                }
                crate::text::push_char(&mut out, v[i]);
                i += 1;
            }
        }
    }
    proof {
        assert(v@.skip(n as int) =~= Seq::<char>::empty());
        assert(out@ + replace_all(Seq::<char>::empty(), pat@, rep@) =~= out@);
    }
    out
}

/// The text after the last space of `s`.
pub(crate) fn last_word_of(s: &str) -> (r: String)
    ensures
        r@ == last_word(s@),
{
    let v = crate::text::chars_of(s);
    let mut k: usize = v.len();
    proof {
        assert(v@.take(k as int) =~= v@);
        assert(last_word(v@.take(k as int)) + v@.skip(k as int) =~= last_word(v@.take(k as int)));
    }
    while k > 0 && v[k - 1] != ' '
        invariant
            k <= v@.len(),
            v@ == s@,
            last_word(s@) == last_word(v@.take(k as int)) + v@.skip(k as int),
        decreases k,
    {
        proof {
            let t = v@.take(k as int);
            assert(t.drop_last() =~= v@.take(k - 1));
            assert(v@.skip(k - 1) =~= seq![v@[k - 1]] + v@.skip(k as int));
            assert(last_word(t) == last_word(v@.take(k - 1)).push(v@[k - 1]));
            assert(last_word(v@.take(k - 1)).push(v@[k - 1]) + v@.skip(k as int) =~= last_word(
                v@.take(k - 1),
            ) + v@.skip(k - 1));
        }
        k -= 1;
    }
    proof {
        if k > 0 {
            assert(last_word(v@.take(k as int)) =~= Seq::<char>::empty());
        } else {
            assert(v@.take(0) =~= Seq::<char>::empty());
        }
        assert(v@.skip(k as int) =~= v@.subrange(k as int, v@.len() as int));
        assert(Seq::<char>::empty() + v@.skip(k as int) =~= v@.skip(k as int));
    }
    crate::text::string_from_range(v.as_slice(), k, v.len())
}

/// Whether `n` is one of `names`.
fn contains_name(names: &[String], n: &str) -> (r: bool)
    ensures
        r == has_name(texts(names@), n@),
{
    let mut i: usize = 0;
    while i < names.len()
        invariant
            i <= names@.len(),
            forall|j: int| 0 <= j < i ==> texts(names@)[j] != n@,
        decreases names@.len() - i,
    {
        if str_eq(names[i].as_str(), n) {
            assert(texts(names@)[i as int] == n@);
            return true;
        }
        i += 1;
    }
    false
}

/// The longest wrapper name among `names` that a C function name starts with,
/// as `{prefix}_t` for a prefix ending before an underscore.
pub fn find_closest_wrapper_from_method_name(names: &[String], fn_name: &str) -> (r: Option<String>)
    ensures
        match first_known(possible_wrappers(fn_name@), texts(names@)) {
            Some(n) => r matches Some(s) && s@ == n,
            None => r is None,
        },
{
    let cands = crate::parser::get_possible_wrappers(fn_name);
    let ghost cs = cands@.map_values(|x: String| x@);
    let mut i: usize = 0;
    assert(cs.skip(0) =~= cs);
    while i < cands.len()
        invariant
            i <= cands@.len(),
            cs == cands@.map_values(|x: String| x@),
            cs == possible_wrappers(fn_name@),
            first_known(cs, texts(names@)) == first_known(cs.skip(i as int), texts(names@)),
        decreases cands@.len() - i,
    {
        let found = contains_name(names, cands[i].as_str());
        proof {
            let rest = cs.skip(i as int);
            assert(rest[0] == cands@[i as int]@);
            assert(rest.drop_first() =~= cs.skip(i + 1));
        }
        if found {
            let r = cands[i].clone();
            return Some(r);
        }
        i += 1;
    }
    proof {
        assert(cs.skip(i as int) =~= Seq::<Seq<char>>::empty());
    }
    None
}

/// The wrapper a C function belongs to, among the wrapper type names known.
pub fn method_owner_of(args: &Vec<Arg>, fn_name: &str, names: &[String]) -> (r: Option<String>)
    ensures
        match method_owner(args@, fn_name@, texts(names@)) {
            Some(n) => r matches Some(s) && s@ == n,
            None => r is None,
        },
{
    let mut k: usize = 0;
    while k < args.len() && args[k].is_mut_pointer() && args[k].is_primitive()
        invariant
            k <= args@.len(),
            first_owner_arg(args@, 0) == first_owner_arg(args@, k as int),
        decreases args@.len() - k,
    {
        k += 1;
    }
    if k < args.len() {
        let ty = last_word_of(args[k].c_type.as_str());
        if contains_name(names, ty.as_str()) {
            return Some(ty);
        }
    }
    find_closest_wrapper_from_method_name(names, fn_name)
}

/// The method name of a C function within its wrapper: the function name with
/// the wrapper's type name (less its final character) removed everywhere.
pub fn struct_method_name(fn_name: &str, wrapper_c_type: &str) -> (r: String)
    requires
        wrapper_c_type@.len() >= 1,
    ensures
        r@ == replace_all(fn_name@, wrapper_c_type@.take(wrapper_c_type@.len() - 1), Seq::empty()),
{
    let t = crate::text::chars_of(wrapper_c_type);
    let stem = crate::text::string_from_chars(t.as_slice(), t.len() - 1);
    assert(stem@ =~= wrapper_c_type@.take(wrapper_c_type@.len() - 1));
    proof {
        reveal_strlit("");
        assert(""@ =~= Seq::<char>::empty());
    }
    replace_all_str(fn_name, stem.as_str(), "")
}

/// The token text of a function's return type: `()` when it declares none.
pub fn extract_return_type(output: Option<&str>) -> (r: String)
    ensures
        match output {
            Some(t) => r@ == t@,
            None => r@ == "()"@,
        },
{
    match output {
        Some(t) => t.to_owned(),
        None => "()".to_owned(),
    }
}

/// An argument from its `name : type` token text: split at the first `:`,
/// both sides trimmed.
pub fn extract_function_argument(text: &str) -> (r: Arg)
    requires
        first_index(text@, ':', 0) is Some,
    ensures
        ({
            let k = first_index(text@, ':', 0)->0;
            &&& r.name@ == trimmed(text@.take(k))
            &&& r.c_type@ == trimmed(text@.skip(k + 1))
            &&& r.processing is Default
        }),
{
    let v = crate::text::chars_of(text);
    let mut k: usize = 0;
    while k < v.len() && v[k] != ':'
        invariant
            k <= v@.len(),
            v@ == text@,
            first_index(v@, ':', 0) == first_index(v@, ':', k as int),
        decreases v@.len() - k,
    {
        k += 1;
    }
    let name_part = crate::text::string_from_range(v.as_slice(), 0, k);
    let ty_part = crate::text::string_from_range(v.as_slice(), k + 1, v.len());
    assert(name_part@ =~= text@.take(k as int));
    assert(ty_part@ =~= text@.skip(k + 1));
    let name_chars = crate::text::chars_of(name_part.as_str());
    let ty_chars = crate::text::chars_of(ty_part.as_str());
    let name_t = crate::chars::trim_chars(&name_chars);
    let ty_t = crate::chars::trim_chars(&ty_chars);
    Arg {
        name: crate::text::string_from_chars(name_t.as_slice(), name_t.len()),
        c_type: crate::text::string_from_chars(ty_t.as_slice(), ty_t.len()),
        processing: ArgProcessing::Default,
    }
}

/// The return type text of a callback signature from its output tokens.
pub fn handler_return_type(output: &str) -> (r: String)
    ensures
        r@ == handler_return_text(output@),
{
    let v = crate::text::chars_of(output);
    let t = crate::chars::trim_chars(&v);
    let arrow = crate::text::chars_of("-> ");
    let start: usize = if t.len() >= 3 && crate::text::chars_match_at(t.as_slice(), 0, arrow.as_slice()) {
        3
    } else {
        0
    };
    proof {
        reveal_strlit("-> ");
        if seq_starts_with(t@, "-> "@) {
            assert(t@.subrange(0, 3) == "-> "@);
        }
    }
    if t.len() - start == 0 {
        return "()".to_owned();
    }
    let r = crate::text::string_from_range(t.as_slice(), start, t.len());
    proof {
        if start == 3 {
            assert(r@ =~= t@.skip(3));
        } else {
            assert(r@ =~= t@);
        }
    }
    r
}

/// How many arguments are `c_void` pointers.
fn count_c_void(args: &Vec<Arg>) -> (r: usize)
    ensures
        r == c_void_count(args@),
{
    let mut n: usize = 0;
    let mut i: usize = 0;
    while i < args.len()
        invariant
            i <= args@.len(),
            n == c_void_count(args@.take(i as int)),
            n <= i,
        decreases args@.len() - i,
    {
        assert(args@.take(i + 1).drop_last() =~= args@.take(i as int));
        if args[i].is_c_void() {
            n += 1;
        }
        i += 1;
    }
    assert(args@.take(args@.len() as int) =~= args@);
    n
}

/// The callback a type definition declares, when its signature has exactly one
/// `c_void` (client data) argument: its arguments grouped as the parser groups
/// them and its return type.
pub fn handler_from_signature(c_type_name: String, args: Vec<Arg>, output: &str, docs: Vec<String>) -> (r:
    Option<CHandler>)
    ensures
        r is Some <==> c_void_count(args@) == 1,
        r matches Some(h) ==> {
            &&& h.c_type_name@ == c_type_name@
            &&& h.args@.len() == args@.len()
            &&& forall|j: int|
                0 <= j < h.args@.len() ==> crate::generator::arg_name_type(#[trigger] h.args@[j])
                    == crate::generator::arg_name_type(args@[j])
            &&& forall|j: int|
                0 <= j < h.args@.len() ==> (crate::generator::processing_kind(#[trigger] h.args@[j].processing),
                    crate::generator::processing_members(h.args@[j].processing))
                    == crate::parser::grouping_after(args@, args@.len() as int, j)
            &&& h.return_type.name@ == Seq::<char>::empty()
            &&& h.return_type.c_type@ == handler_return_text(output@)
            &&& h.return_type.processing is Default
            &&& h.docs@ == docs@
        },
{
    if count_c_void(&args) != 1 {
        return None;
    }
    let ret = handler_return_type(output);
    Some(
        CHandler {
            c_type_name,
            args: crate::parser::process_types(args),
            return_type: Arg { name: String::new(), c_type: ret, processing: ArgProcessing::Default },
            docs,
        },
    )
}

/// The wrapper of a C struct: its type name (`_stct` replaced by `_t`), the
/// PascalCase class name, the name without the `_t`, and its fields grouped as
/// the parser groups them.
pub fn struct_wrapper(ident: &str, fields: Vec<Arg>, docs: Vec<String>) -> (r: CWrapper)
    requires
        replace_all(ident@, "_stct"@, "_t"@).len() >= 2,
    ensures
        r.c_type_name@ == replace_all(ident@, "_stct"@, "_t"@),
        r.class_name@ == pascal_case(r.c_type_name@),
        r.without_name@ == r.c_type_name@.take(r.c_type_name@.len() - 2),
        r.fields@.len() == fields@.len(),
        forall|j: int|
            0 <= j < r.fields@.len() ==> crate::generator::arg_name_type(#[trigger] r.fields@[j])
                == crate::generator::arg_name_type(fields@[j]),
        forall|j: int|
            0 <= j < r.fields@.len() ==> (crate::generator::processing_kind(#[trigger] r.fields@[j].processing),
                crate::generator::processing_members(r.fields@[j].processing))
                == crate::parser::grouping_after(fields@, fields@.len() as int, j),
        r.methods@.len() == 0,
        r.docs@ == docs@,
{
    let c_type_name = replace_all_str(ident, "_stct", "_t");
    let class_name = crate::parser::snake_to_pascal_case(c_type_name.as_str());
    let cs = crate::text::chars_of(c_type_name.as_str());
    let without_name = crate::text::string_from_chars(cs.as_slice(), cs.len() - 2);
    CWrapper {
        class_name,
        c_type_name,
        without_name,
        fields: crate::parser::process_types(fields),
        methods: Vec::new(),
        docs,
    }
}

/// Whether the bindings keep a wrapper type: none of the media-driver
/// internals' prefixes starts its name.
pub fn keep_wrapper(c_type_name: &str) -> (r: bool)
    ensures
        r == starts_with_none(c_type_name@, excluded_wrapper_prefixes()),
{
    let r = !(str_starts_with(c_type_name, "aeron_thread") || str_starts_with(c_type_name, "aeron_command")
        || str_starts_with(c_type_name, "aeron_executor") || str_starts_with(
        c_type_name,
        "aeron_name_resolver",
    ) || str_starts_with(c_type_name, "aeron_udp_channel_transport") || str_starts_with(
        c_type_name,
        "aeron_udp_transport",
    ));
    proof {
        let p = excluded_wrapper_prefixes();
        if !r {
            if seq_starts_with(c_type_name@, "aeron_thread"@) {
                assert(p[0] == "aeron_thread"@);
            } else if seq_starts_with(c_type_name@, "aeron_command"@) {
                assert(p[1] == "aeron_command"@);
            } else if seq_starts_with(c_type_name@, "aeron_executor"@) {
                assert(p[2] == "aeron_executor"@);
            } else if seq_starts_with(c_type_name@, "aeron_name_resolver"@) {
                assert(p[3] == "aeron_name_resolver"@);
            } else if seq_starts_with(c_type_name@, "aeron_udp_channel_transport"@) {
                assert(p[4] == "aeron_udp_channel_transport"@);
            } else {
                assert(p[5] == "aeron_udp_transport"@);
            }
        }
    }
    r
}

/// Whether the bindings keep a callback type.
pub fn keep_handler(c_type_name: &str) -> (r: bool)
    ensures
        r == starts_with_none(c_type_name@, excluded_handler_prefixes()),
{
    let r = !(str_starts_with(c_type_name, "aeron_udp_channel") || str_starts_with(
        c_type_name,
        "aeron_udp_transport",
    ));
    proof {
        let p = excluded_handler_prefixes();
        if !r {
            if seq_starts_with(c_type_name@, "aeron_udp_channel"@) {
                assert(p[0] == "aeron_udp_channel"@);
            } else {
                assert(p[1] == "aeron_udp_transport"@);
            }
        }
    }
    r
}

} // verus!
