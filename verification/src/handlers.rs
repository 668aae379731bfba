use vstd::prelude::*;

use crate::bindings::{last_word, last_word_of, replace_all, replace_all_str, CHandler};
use crate::generator::{
    c_to_rs_needs_pair, c_to_rs_return_text, join_text, opt_text, new_return_type_text, processing_members,
    CWrapper, Arg,
};
use crate::parser::{pascal_case, snake_to_pascal_case};
use crate::generator::join;
use crate::text::{chars_of, concat2, owned, push_str, str_eq, string_from_chars};

verus! {

/// The index of the first `clientd` (`*mut c_void`) argument, from `from` on.
pub open spec fn clientd_from(args: Seq<Arg>, from: int) -> Option<int>
    decreases args.len() - from,
{
    if from < 0 || from >= args.len() {
        None
    } else if args[from].spec_is_c_void() {
        Some(from)
    } else {
        clientd_from(args, from + 1)
    }
}

/// A callback with a pointer to a primitive among its arguments gets no
/// generated code.
pub open spec fn has_mut_primitive_arg(args: Seq<Arg>) -> bool {
    exists|k: int| 0 <= k < args.len() && (#[trigger] args[k]).spec_is_primitive() && args[k].spec_is_mut_pointer()
}

/// The C type name of a callback without its `_t` suffix.
pub open spec fn handler_stem(c_type: Seq<char>) -> Seq<char> {
    c_type.subrange(0, c_type.len() - 2)
}

/// `name: type` of every argument, as the C trampoline declares them.
pub open spec fn typed_args_text(args: Seq<Arg>) -> Seq<Seq<char>>
    decreases args.len(),
{
    if args.len() == 0 {
        Seq::empty()
    } else {
        typed_args_text(args.drop_last()).push(args.last().name@ + ": "@ + args.last().c_type@)
    }
}

/// The Rust values the trampoline hands to the closure: each argument other
/// than `clientd`, converted from C.
pub open spec fn converted_args_text(args: Seq<Arg>, clientd: Seq<char>, ws: Seq<CWrapper>) -> Seq<Seq<char>>
    decreases args.len(),
{
    if args.len() == 0 {
        Seq::empty()
    } else {
        let rest = converted_args_text(args.drop_last(), clientd, ws);
        let a = args.last();
        let t = c_to_rs_return_text(a, a.name@, false, false);
        if a.name@ == clientd || t.len() == 0 {
            rest
        } else {
            rest.push(t)
        }
    }
}

/// The parameters of the closure trait's method: each argument other than
/// `clientd` with its Rust type.
pub open spec fn closure_params_text(args: Seq<Arg>, clientd: Seq<char>, ws: Seq<CWrapper>) -> Seq<Seq<char>>
    decreases args.len(),
{
    if args.len() == 0 {
        Seq::empty()
    } else {
        let rest = closure_params_text(args.drop_last(), clientd, ws);
        let a = args.last();
        let t = new_return_type_text(a, ws, false, false);
        if a.name@ == clientd || t.len() == 0 {
            rest
        } else {
            rest.push(a.name@ + ": "@ + t)
        }
    }
}

/// What the logging handler prints for each closure parameter.
pub open spec fn log_fields_text(args: Seq<Arg>, clientd: Seq<char>, ws: Seq<CWrapper>) -> Seq<Seq<char>>
    decreases args.len(),
{
    if args.len() == 0 {
        Seq::empty()
    } else {
        let rest = log_fields_text(args.drop_last(), clientd, ws);
        let a = args.last();
        let t = new_return_type_text(a, ws, false, false);
        if a.name@ == clientd || t.len() == 0 {
            rest
        } else {
            rest.push("format!(\"{} : {:?}\", stringify!("@ + a.name@ + "), "@ + a.name@ + ")"@)
        }
    }
}

/// The argument types of the `FnMut` a one-shot closure must be.
pub open spec fn fn_mut_types_text(args: Seq<Arg>, clientd: Seq<char>, ws: Seq<CWrapper>) -> Seq<Seq<char>>
    decreases args.len(),
{
    if args.len() == 0 {
        Seq::empty()
    } else {
        let rest = fn_mut_types_text(args.drop_last(), clientd, ws);
        let a = args.last();
        let t = if a.spec_is_mut_pointer() && !a.spec_is_double_mut_pointer() && a.spec_is_primitive() {
            last_word(a.c_type@)
        } else {
            new_return_type_text(a, ws, false, false)
        };
        if a.name@ == clientd || t.len() == 0 {
            rest
        } else {
            rest.push(t)
        }
    }
}

/// The token text of a Rust string literal holding `s`, as `quote` writes
/// one for a `str` (a `proc_macro2::Literal::string`): the text in double
/// quotes, with special characters escaped.
pub uninterp spec fn string_literal_text(s: Seq<char>) -> Seq<char>;

/// Writes `s` as a string literal token (`<str as quote::ToTokens>`, then the
/// token's text). The escaping rules are left to proc-macro2; only the name
/// of its result is stated.
#[verifier::external_body]
pub(crate) fn string_literal(s: &str) -> (r: String)
    ensures
        r@ == string_literal_text(s@),
{
    quote::ToTokens::to_token_stream(s).to_string()
}

/// One `#[doc = "..."]` attribute per documentation line.
pub open spec fn doc_attrs_text(lines: Seq<Seq<char>>) -> Seq<char>
    decreases lines.len(),
{
    if lines.len() == 0 {
        Seq::empty()
    } else {
        doc_attrs_text(lines.drop_last()) + "#[doc = "@ + string_literal_text(lines.last()) + "]\n"@
    }
}

/// The body of a C trampoline: it checks `clientd`, casts it back to the
/// closure and calls it (through `call`) with the converted arguments.
pub open spec fn trampoline_body_text(clientd: Seq<char>, logged: Seq<char>, call: Seq<char>, converted: Seq<char>) -> Seq<char> {
    "{ #[cfg(debug_assertions)] if "@ + clientd
        + ".is_null() { unimplemented!(\"closure should not be null\") } #[cfg(feature = \"extra-logging\")] { log::debug!(\"calling {}\", stringify!("@
        + logged + ")); } let closure: &mut F = &mut *("@ + clientd + " as *mut F); "@ + call + "("@ + converted
        + ") }"@
}

/// The callback trait a handler implements, with its logging implementation.
pub open spec fn handler_trait_text(closure_type: Seq<char>, logger: Seq<char>, handle: Seq<char>, params: Seq<char>, ret: Seq<char>, logs: Seq<char>) -> Seq<char> {
    "///\n///\n/// _(note you must copy any arguments that you use afterwards even those with static lifetimes)_\npub trait "@
        + closure_type + " { fn "@ + handle + "(&mut self, "@ + params + ") -> "@ + ret + "; }\npub struct "@ + logger
        + ";\nimpl "@ + closure_type + " for "@ + logger + " { fn "@ + handle + "(&mut self, "@ + params + ") -> "@ + ret
        + " { log::info!(\"{}(\\n\\t{}\\n)\", stringify!("@ + handle + "), ["@ + logs + "].join(\",\\n\\t\"),); "@ + (if ret
        == "()"@ {
        "()"@
    } else {
        "unimplemented!()"@
    }) + " } }\nunsafe impl Send for "@ + logger + " {}\nunsafe impl Sync for "@ + logger + " {}\n"@
}

/// The empty-handler constructor of a callback type.
pub open spec fn no_handler_text(no_method: Seq<char>, logger: Seq<char>) -> Seq<char> {
    "impl Handlers {\n/// No handler is set i.e. None with correct type\npub fn "@ + no_method + "() -> Option<&'static Handler<"@
        + logger + ">> { None::<&Handler<"@ + logger + ">> } }\n"@
}

/// The code generated for a callback type of the C API, with the given
/// documentation lines: the closure trait and its logging implementation, the
/// empty-handler constructor, and the two C trampolines that call a handler
/// and a one-shot closure. Nothing for a callback with a pointer to a
/// primitive among its arguments.
pub open spec fn handler_code_text(h: CHandler, doc_lines: Seq<Seq<char>>, ws: Seq<CWrapper>) -> Seq<char> {
    let args = h.args@;
    if has_mut_primitive_arg(args) {
        Seq::empty()
    } else {
        let tn = h.c_type_name@;
        let clientd = args[clientd_from(args, 0)->0].name@;
        let docs = doc_attrs_text(doc_lines);
        let stem = handler_stem(tn);
        let closure_type = pascal_case(tn) + "Callback"@;
        let logger = pascal_case(tn) + "Logger"@;
        let handle = "handle_"@ + stem;
        let no_method = "no_"@ + replace_all(replace_all(stem, "_on_"@, "_"@), "aeron_"@, Seq::empty()) + "_handler"@;
        let ret = h.return_type.c_type@;
        let logs = log_fields_text(args, clientd, ws);
        let typed = join_text(typed_args_text(args), ", "@);
        let converted = join_text(converted_args_text(args, clientd, ws), ", "@);
        docs + handler_trait_text(
            closure_type,
            logger,
            handle,
            join_text(closure_params_text(args, clientd, ws), ", "@),
            ret,
            join_text(if logs.len() == 0 { seq!["\"\""@] } else { logs }, ", "@),
        ) + no_handler_text(no_method, logger) + "#[allow(dead_code)]\n"@ + docs + "unsafe extern \"C\" fn "@ + tn
            + "_callback<F: "@ + closure_type + ">("@ + typed + ") -> "@ + ret + " "@ + trampoline_body_text(
            clientd,
            handle,
            "closure."@ + handle,
            converted,
        ) + "\n#[allow(dead_code)]\n"@ + docs + "unsafe extern \"C\" fn "@ + tn + "_callback_for_once_closure<F: FnMut("@
            + join_text(fn_mut_types_text(args, clientd, ws), ", "@) + ") -> "@ + ret + ">("@ + typed + ") -> "@ + ret
            + " "@ + trampoline_body_text(clientd, tn + "_callback_for_once_closure"@, "closure"@, converted) + "\n"@
    }
}

/// What the code of a callback type needs: a `clientd` argument, a C type
/// name ending in two ASCII characters (its `_t`), and the arguments that
/// its conversions read.
pub open spec fn handler_complete(h: CHandler) -> bool {
    let args = h.args@;
    let tn = h.c_type_name@;
    !has_mut_primitive_arg(args) ==> {
        &&& clientd_from(args, 0) is Some
        &&& tn.len() >= 2
        &&& (tn[tn.len() - 1] as u32) < 128
        &&& (tn[tn.len() - 2] as u32) < 128
        &&& forall|k: int| 0 <= k < args.len() ==> c_to_rs_needs_pair(#[trigger] args[k]) ==> processing_members(args[k].processing).len() >= 2
    }
}


/// See `clientd_from`.
pub(crate) fn clientd_index(args: &Vec<Arg>) -> (r: Option<usize>)
    ensures
        match clientd_from(args@, 0) {
            Some(k) => r matches Some(j) && j == k,
            None => r is None,
        },
        r matches Some(j) ==> j < args@.len(),
{
    let mut i: usize = 0;
    while i < args.len()
        invariant
            i <= args@.len(),
            clientd_from(args@, 0) == clientd_from(args@, i as int),
        decreases args@.len() - i,
    {
        if args[i].is_c_void() {
            return Some(i);
        }
        i += 1;
    }
    None
}

/// See `has_mut_primitive_arg`.
pub(crate) fn any_mut_primitive(args: &Vec<Arg>) -> (r: bool)
    ensures
        r == has_mut_primitive_arg(args@),
{
    let mut i: usize = 0;
    while i < args.len()
        invariant
            i <= args@.len(),
            forall|k: int| 0 <= k < i ==> !((#[trigger] args@[k]).spec_is_primitive() && args@[k].spec_is_mut_pointer()),
        decreases args@.len() - i,
    {
        if args[i].is_primitive() && args[i].is_mut_pointer() {
            return true;
        }
        i += 1;
    }
    false
}

/// Which list of texts a pass over the callback arguments collects.
#[derive(Clone, Copy, PartialEq, Eq, Structural)]
enum ArgList {
    Typed,
    Converted,
    ClosureParams,
    LogFields,
    FnMutTypes,
}

/// The list `which` of the callback arguments.
spec fn arg_list_text(which: ArgList, args: Seq<Arg>, clientd: Seq<char>, ws: Seq<CWrapper>) -> Seq<Seq<char>> {
    match which {
        ArgList::Typed => typed_args_text(args),
        ArgList::Converted => converted_args_text(args, clientd, ws),
        ArgList::ClosureParams => closure_params_text(args, clientd, ws),
        ArgList::LogFields => log_fields_text(args, clientd, ws),
        ArgList::FnMutTypes => fn_mut_types_text(args, clientd, ws),
    }
}

/// The contribution of one argument to the list `which`, if any.
fn arg_item(which: ArgList, a: &Arg, clientd: &str, ws: &[CWrapper]) -> (r: Option<String>)
    requires
        c_to_rs_needs_pair(*a) ==> processing_members(a.processing).len() >= 2,
    ensures
        opt_text(r) == arg_item_text(which, *a, clientd@, ws@),
{
    if which == ArgList::Typed {
        return Some(crate::text::concat3(a.name.as_str(), ": ", a.c_type.as_str()));
    }
    if str_eq(a.name.as_str(), clientd) {
        return None;
    }
    let t = if which == ArgList::Converted {
        crate::generator::c_to_rs_text(a, a.name.as_str(), false, false)
    } else if which == ArgList::FnMutTypes && a.is_single_mut_pointer() && a.is_primitive() {
        last_word_of(a.c_type.as_str())
    } else {
        crate::generator::new_type_text(a, ws, false, false)
    };
    if t.as_str().unicode_len() == 0 {
        return None;
    }
    if which == ArgList::ClosureParams {
        Some(crate::text::concat3(a.name.as_str(), ": ", t.as_str()))
    } else if which == ArgList::LogFields {
        let mut out = String::new();
        push_str(&mut out, "format!(\"{} : {:?}\", stringify!(");
        push_str(&mut out, a.name.as_str());
        push_str(&mut out, "), ");
        push_str(&mut out, a.name.as_str());
        push_str(&mut out, ")");
        assert(out@ =~= "format!(\"{} : {:?}\", stringify!("@ + a.name@ + "), "@ + a.name@ + ")"@);
        Some(out)
    } else {
        Some(t)
    }
}

/// The contribution of one argument to the list `which`.
spec fn arg_item_text(which: ArgList, a: Arg, clientd: Seq<char>, ws: Seq<CWrapper>) -> Option<Seq<char>> {
    if which == ArgList::Typed {
        Some(a.name@ + ": "@ + a.c_type@)
    } else if a.name@ == clientd {
        None
    } else {
        let t = if which == ArgList::Converted {
            c_to_rs_return_text(a, a.name@, false, false)
        } else if which == ArgList::FnMutTypes && a.spec_is_mut_pointer() && !a.spec_is_double_mut_pointer()
            && a.spec_is_primitive() {
            last_word(a.c_type@)
        } else {
            new_return_type_text(a, ws, false, false)
        };
        if t.len() == 0 {
            None
        } else if which == ArgList::ClosureParams {
            Some(a.name@ + ": "@ + t)
        } else if which == ArgList::LogFields {
            Some("format!(\"{} : {:?}\", stringify!("@ + a.name@ + "), "@ + a.name@ + ")"@)
        } else {
            Some(t)
        }
    }
}

/// The lists are built one argument at a time.
proof fn lemma_arg_list_step(which: ArgList, args: Seq<Arg>, clientd: Seq<char>, ws: Seq<CWrapper>)
    requires
        args.len() > 0,
    ensures
        arg_list_text(which, args, clientd, ws) == match arg_item_text(which, args.last(), clientd, ws) {
            Some(t) => arg_list_text(which, args.drop_last(), clientd, ws).push(t),
            None => arg_list_text(which, args.drop_last(), clientd, ws),
        },
{
}

/// See `arg_list_text`.
fn arg_list(which: ArgList, args: &Vec<Arg>, clientd: &str, ws: &[CWrapper]) -> (r: Vec<String>)
    requires
        forall|k: int| 0 <= k < args@.len() ==> c_to_rs_needs_pair(#[trigger] args@[k]) ==> processing_members(args@[k].processing).len() >= 2,
    ensures
        r@.map_values(|p: String| p@) == arg_list_text(which, args@, clientd@, ws@),
{
    let mut out: Vec<String> = Vec::new();
    let mut i: usize = 0;
    while i < args.len()
        invariant
            i <= args@.len(),
            forall|k: int| 0 <= k < args@.len() ==> c_to_rs_needs_pair(#[trigger] args@[k]) ==> processing_members(args@[k].processing).len() >= 2,
            out@.map_values(|p: String| p@) == arg_list_text(which, args@.take(i as int), clientd@, ws@),
        decreases args@.len() - i,
    {
        let ghost before = out@;
        let item = arg_item(which, &args[i], clientd, ws);
        match item {
            Some(t) => out.push(t),
            None => {},
        }
        proof {
            let t = args@.take(i + 1);
            assert(t.drop_last() =~= args@.take(i as int));
            assert(t.last() == args@[i as int]);
            lemma_arg_list_step(which, t, clientd@, ws@);
            assert(out@.map_values(|p: String| p@) =~= match arg_item_text(which, args@[i as int], clientd@, ws@) {
                Some(x) => before.map_values(|p: String| p@).push(x),
                None => before.map_values(|p: String| p@),
            });
        }
        i += 1;
    }
    assert(args@.take(args@.len() as int) =~= args@);
    out
}

/// See `doc_attrs_text`.
pub(crate) fn doc_attrs(lines: &[String]) -> (r: String)
    ensures
        r@ == doc_attrs_text(lines@.map_values(|l: String| l@)),
{
    let ghost views = lines@.map_values(|l: String| l@);
    let mut out = String::new();
    let mut i: usize = 0;
    while i < lines.len()
        invariant
            i <= lines@.len(),
            views == lines@.map_values(|l: String| l@),
            out@ == doc_attrs_text(views.take(i as int)),
        decreases lines@.len() - i,
    {
        let ghost before = out@;
        let q = string_literal(lines[i].as_str());
        push_str(&mut out, "#[doc = ");
        push_str(&mut out, q.as_str());
        push_str(&mut out, "]\n");
        proof {
            let t = views.take(i + 1);
            assert(t.drop_last() =~= views.take(i as int));
            assert(t.last() == lines@[i as int]@);
            assert(out@ =~= before + "#[doc = "@ + string_literal_text(t.last()) + "]\n"@);
        }
        i += 1;
    }
    assert(views.take(lines@.len() as int) =~= views);
    out
}

/// See `handler_trait_text`.
fn handler_trait(closure_type: &str, logger: &str, handle: &str, params: &str, ret: &str, logs: &str) -> (r: String)
    ensures
        r@ == handler_trait_text(closure_type@, logger@, handle@, params@, ret@, logs@),
{
    let mut out = String::new();
    push_str(&mut out, "///\n///\n/// _(note you must copy any arguments that you use afterwards even those with static lifetimes)_\npub trait ");
    push_str(&mut out, closure_type);
    push_str(&mut out, " { fn ");
    push_str(&mut out, handle);
    push_str(&mut out, "(&mut self, ");
    push_str(&mut out, params);
    push_str(&mut out, ") -> ");
    push_str(&mut out, ret);
    push_str(&mut out, "; }\npub struct ");
    push_str(&mut out, logger);
    push_str(&mut out, ";\nimpl ");
    push_str(&mut out, closure_type);
    push_str(&mut out, " for ");
    push_str(&mut out, logger);
    push_str(&mut out, " { fn ");
    push_str(&mut out, handle);
    push_str(&mut out, "(&mut self, ");
    push_str(&mut out, params);
    push_str(&mut out, ") -> ");
    push_str(&mut out, ret);
    push_str(&mut out, " { log::info!(\"{}(\\n\\t{}\\n)\", stringify!(");
    push_str(&mut out, handle);
    push_str(&mut out, "), [");
    push_str(&mut out, logs);
    push_str(&mut out, "].join(\",\\n\\t\"),); ");
    if str_eq(ret, "()") {
        push_str(&mut out, "()");
    } else {
        push_str(&mut out, "unimplemented!()");
    }
    push_str(&mut out, " } }\nunsafe impl Send for ");
    push_str(&mut out, logger);
    push_str(&mut out, " {}\nunsafe impl Sync for ");
    push_str(&mut out, logger);
    push_str(&mut out, " {}\n");
    assert(out@ =~= handler_trait_text(closure_type@, logger@, handle@, params@, ret@, logs@));
    out
}

/// See `no_handler_text`.
fn no_handler(no_method: &str, logger: &str) -> (r: String)
    ensures
        r@ == no_handler_text(no_method@, logger@),
{
    let mut out = String::new();
    push_str(&mut out, "impl Handlers {\n/// No handler is set i.e. None with correct type\npub fn ");
    push_str(&mut out, no_method);
    push_str(&mut out, "() -> Option<&'static Handler<");
    push_str(&mut out, logger);
    push_str(&mut out, ">> { None::<&Handler<");
    push_str(&mut out, logger);
    push_str(&mut out, ">> } }\n");
    assert(out@ =~= no_handler_text(no_method@, logger@));
    out
}

/// See `trampoline_body_text`.
fn trampoline_body(clientd: &str, logged: &str, call: &str, converted: &str) -> (r: String)
    ensures
        r@ == trampoline_body_text(clientd@, logged@, call@, converted@),
{
    let mut out = String::new();
    push_str(&mut out, "{ #[cfg(debug_assertions)] if ");
    push_str(&mut out, clientd);
    push_str(&mut out, ".is_null() { unimplemented!(\"closure should not be null\") } #[cfg(feature = \"extra-logging\")] { log::debug!(\"calling {}\", stringify!(");
    push_str(&mut out, logged);
    push_str(&mut out, ")); } let closure: &mut F = &mut *(");
    push_str(&mut out, clientd);
    push_str(&mut out, " as *mut F); ");
    push_str(&mut out, call);
    push_str(&mut out, "(");
    push_str(&mut out, converted);
    push_str(&mut out, ") }");
    assert(out@ =~= trampoline_body_text(clientd@, logged@, call@, converted@));
    out
}

/// The code generated for a callback type (see `handler_code_text`),
/// documented by the lines of its documentation texts, in order.
pub fn generate_handlers(handler: &CHandler, wrappers: &[CWrapper]) -> (r: String)
    requires
        handler_complete(*handler),
    ensures
        r@ == handler_code_text(*handler, crate::docs::doc_text_lines(handler.docs@.map_values(|d: String| d@)), wrappers@),
{
    let lines = crate::docs::doc_lines(handler.docs.as_slice());
    let doc_lines = lines.as_slice();
    let args = &handler.args;
    if any_mut_primitive(args) {
        return String::new();
    }
    let tn = handler.c_type_name.as_str();
    let ci = match clientd_index(args) {
        Some(k) => k,
        None => 0,
    };
    let clientd = args[ci].name.as_str();
    let docs = doc_attrs(doc_lines);
    let tv = chars_of(tn);
    let stem = string_from_chars(tv.as_slice(), tv.len() - 2);
    assert(stem@ =~= handler_stem(tn@));
    let pascal = snake_to_pascal_case(tn);
    let closure_type = concat2(pascal.as_str(), "Callback");
    let logger = concat2(pascal.as_str(), "Logger");
    let handle = concat2("handle_", stem.as_str());
    let shortened = replace_all_str(replace_all_str(stem.as_str(), "_on_", "_").as_str(), "aeron_", "");
    let no_method = crate::text::concat3("no_", shortened.as_str(), "_handler");
    proof {
        reveal_strlit("");
        assert(""@ =~= Seq::<char>::empty());
    }
    let ret = handler.return_type.c_type.as_str();
    let log_list = arg_list(ArgList::LogFields, args, clientd, wrappers);
    let logs = if log_list.len() == 0 {
        let mut e: Vec<String> = Vec::new();
        e.push(owned("\"\""));
        assert(e@.map_values(|p: String| p@) =~= seq!["\"\""@]);
        join(&e, ", ")
    } else {
        join(&log_list, ", ")
    };
    let params = join(&arg_list(ArgList::ClosureParams, args, clientd, wrappers), ", ");
    let typed = join(&arg_list(ArgList::Typed, args, clientd, wrappers), ", ");
    let converted = join(&arg_list(ArgList::Converted, args, clientd, wrappers), ", ");
    let fn_mut = join(&arg_list(ArgList::FnMutTypes, args, clientd, wrappers), ", ");
    let call = concat2("closure.", handle.as_str());
    let once_name = concat2(tn, "_callback_for_once_closure");
    let mut out = String::new();
    push_str(&mut out, docs.as_str());
    let t = handler_trait(closure_type.as_str(), logger.as_str(), handle.as_str(), params.as_str(), ret, logs.as_str());
    push_str(&mut out, t.as_str());
    let n = no_handler(no_method.as_str(), logger.as_str());
    push_str(&mut out, n.as_str());
    push_str(&mut out, "#[allow(dead_code)]\n");
    push_str(&mut out, docs.as_str());
    push_str(&mut out, "unsafe extern \"C\" fn ");
    push_str(&mut out, tn);
    push_str(&mut out, "_callback<F: ");
    push_str(&mut out, closure_type.as_str());
    push_str(&mut out, ">(");
    push_str(&mut out, typed.as_str());
    push_str(&mut out, ") -> ");
    push_str(&mut out, ret);
    push_str(&mut out, " ");
    let b1 = trampoline_body(clientd, handle.as_str(), call.as_str(), converted.as_str());
    push_str(&mut out, b1.as_str());
    push_str(&mut out, "\n#[allow(dead_code)]\n");
    push_str(&mut out, docs.as_str());
    push_str(&mut out, "unsafe extern \"C\" fn ");
    push_str(&mut out, tn);
    push_str(&mut out, "_callback_for_once_closure<F: FnMut(");
    push_str(&mut out, fn_mut.as_str());
    push_str(&mut out, ") -> ");
    push_str(&mut out, ret);
    push_str(&mut out, ">(");
    push_str(&mut out, typed.as_str());
    push_str(&mut out, ") -> ");
    push_str(&mut out, ret);
    push_str(&mut out, " ");
    let b2 = trampoline_body(clientd, once_name.as_str(), "closure", converted.as_str());
    push_str(&mut out, b2.as_str());
    push_str(&mut out, "\n");
    assert(out@ =~= handler_code_text(*handler, doc_lines@.map_values(|l: String| l@), wrappers@));
    out
}

/// The argument types of the `FnMut` a one-shot closure for these callback
/// arguments must be (see `fn_mut_types_text`).
pub(crate) fn fn_mut_types(args: &Vec<Arg>, clientd: &str, ws: &[CWrapper]) -> (r: Vec<String>)
    requires
        forall|k: int| 0 <= k < args@.len() ==> c_to_rs_needs_pair(#[trigger] args@[k]) ==> processing_members(args@[k].processing).len() >= 2,
    ensures
        r@.map_values(|p: String| p@) == fn_mut_types_text(args@, clientd@, ws@),
{
    arg_list(ArgList::FnMutTypes, args, clientd, ws)
}

} // verus!
