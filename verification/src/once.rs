use vstd::prelude::*;

use crate::bindings::{replace_all, replace_all_str, CHandler};
use crate::generator::{
    call_argument_text, fn_argument_text, handler_impl_name, join, join_text, method_return_text,
    method_uses_self, processing_kind, processing_members, rs_to_c_needs_pair, set_closed_text,
    where_clause, where_clause_text, wrapper_for, wrapper_key, Arg, ArgProcessing, CWrapper, Method,
    ProcessingKind, c_to_rs_return_text,
};
use crate::handlers::{clientd_from, fn_mut_types_text, handler_complete, has_mut_primitive_arg};
use crate::parser::{pascal_case, snake_to_pascal_case};
use crate::text::{concat2, concat3, push_str, seq_starts_with, str_starts_with};

verus! {

/// A callback argument that a method takes as an optional handler.
pub open spec fn is_handler_param(a: Arg) -> bool {
    processing_kind(a.processing) == ProcessingKind::Handler && !a.spec_is_mut_pointer()
}

/// A method that takes a callback gets a variant taking a one-shot closure
/// (unless its C function name starts with `set_` or `add_`).
pub open spec fn has_once_variant(m: Method) -> bool {
    &&& exists|k: int| 0 <= k < m.arguments@.len() && processing_kind((#[trigger] m.arguments@[k]).processing) == ProcessingKind::Handler
    &&& !seq_starts_with(m.fn_name@, "set_"@)
    &&& !seq_starts_with(m.fn_name@, "add_"@)
}

/// The closure trait a callback type gets, as its handler code names it
/// (none for a callback that gets no code).
pub open spec fn closure_trait_name(h: CHandler) -> Seq<char> {
    if has_mut_primitive_arg(h.args@) { Seq::empty() } else { pascal_case(h.c_type_name@) + "Callback"@ }
}

/// The `FnMut` signature a one-shot closure for a callback type must have.
pub open spec fn fn_mut_signature(h: CHandler, ws: Seq<CWrapper>) -> Seq<char> {
    let args = h.args@;
    "FnMut("@ + join_text(fn_mut_types_text(args, args[clientd_from(args, 0)->0].name@, ws), ", "@) + ") -> "@
        + h.return_type.c_type@
}

/// The bounds with each callback's closure trait replaced by its `FnMut`
/// signature, callback by callback.
pub open spec fn closures_replaced(text: Seq<char>, hs: Seq<CHandler>, ws: Seq<CWrapper>) -> Seq<char>
    decreases hs.len(),
{
    if hs.len() == 0 {
        text
    } else {
        let before = closures_replaced(text, hs.drop_last(), ws);
        let h = hs.last();
        if closure_trait_name(h).len() == 0 {
            before
        } else {
            replace_all(before, closure_trait_name(h), fn_mut_signature(h, ws))
        }
    }
}

/// The parameter of a one-shot variant: a handler is taken as the closure itself.
pub open spec fn once_param_text(self_type: Seq<char>, a: Arg, ws: Seq<CWrapper>) -> Option<Seq<char>> {
    match fn_argument_text(self_type, a, ws) {
        Some(p) => if is_handler_param(a) && a.name@.len() > 0 {
            Some("mut "@ + a.name@ + ": "@ + handler_impl_name(a.c_type@))
        } else {
            Some(p)
        },
        None => None,
    }
}

/// The parameters of a one-shot variant, in order.
pub open spec fn once_params_text(self_type: Seq<char>, args: Seq<Arg>, ws: Seq<CWrapper>) -> Seq<Seq<char>>
    decreases args.len(),
{
    if args.len() == 0 {
        Seq::empty()
    } else {
        let rest = once_params_text(self_type, args.drop_last(), ws);
        match once_param_text(self_type, args.last(), ws) {
            Some(t) => rest.push(t),
            None => rest,
        }
    }
}

/// What a one-shot variant passes for an argument: for a handler, the
/// closure trampoline and a pointer to the closure.
pub open spec fn once_call_arg_text(self_type: Seq<char>, a: Arg, ws: Seq<CWrapper>) -> Seq<char> {
    if wrapper_for(ws, wrapper_key(a)) is None && is_handler_param(a) {
        "Some("@ + processing_members(a.processing)[0].1 + "_callback_for_once_closure::<"@ + handler_impl_name(a.c_type@)
            + ">), &mut "@ + processing_members(a.processing)[0].0 + " as *mut _ as *mut std::os::raw::c_void"@
    } else {
        call_argument_text(self_type, a, ws)
    }
}

/// The arguments of a one-shot variant's C call, leaving out empty ones.
pub open spec fn once_call_args_text(self_type: Seq<char>, args: Seq<Arg>, ws: Seq<CWrapper>) -> Seq<Seq<char>>
    decreases args.len(),
{
    if args.len() == 0 {
        Seq::empty()
    } else {
        let rest = once_call_args_text(self_type, args.drop_last(), ws);
        let t = once_call_arg_text(self_type, args.last(), ws);
        if t.len() == 0 { rest } else { rest.push(t) }
    }
}

/// The one-shot variant of a method that takes a callback: it takes the
/// closure itself and calls the C function with the closure's trampoline.
pub open spec fn once_method_text(self_type: Seq<char>, m: Method, ws: Seq<CWrapper>, hs: Seq<CHandler>) -> Seq<char> {
    if !has_once_variant(m) {
        Seq::empty()
    } else {
        let args = m.arguments@;
        let uses_self = method_uses_self(self_type, args, ws);
        "\n#[inline]\n"@ + crate::generator::plain_method_docs_text(self_type, m, ws)
            + "///\n///\n/// _NOTE: aeron must not store this closure and instead use it immediately. If not you will get undefined behaviour,\n///  use with care_\npub fn "@
            + m.struct_method_name@ + "_once"@ + closures_replaced(where_clause_text(args), hs, ws) + "("@ + (if uses_self {
            "&self, "@
        } else {
            Seq::empty()
        }) + join_text(once_params_text(self_type, args, ws), ", "@) + ") -> "@ + method_return_text(m, uses_self, ws)
            + " { "@ + set_closed_text(m) + "unsafe { let result = "@ + m.fn_name@ + "("@ + join_text(
            once_call_args_text(self_type, args, ws),
            ", "@,
        ) + "); "@ + c_to_rs_return_text(m.return_type, "result"@, true, false) + " } }"@
    }
}

/// The callback types that get code have a `clientd` argument and complete
/// groupings.
pub open spec fn handlers_complete(hs: Seq<CHandler>) -> bool {
    forall|k: int| 0 <= k < hs.len() ==> handler_complete(#[trigger] hs[k])
}

/// See `closure_trait_name` and `fn_mut_signature`: the replacement a
/// callback type makes in the bounds, if any.
fn closure_replacement(h: &CHandler, ws: &[CWrapper]) -> (r: Option<(String, String)>)
    requires
        handler_complete(*h),
    ensures
        match r {
            Some((a, b)) => closure_trait_name(*h).len() > 0 && a@ == closure_trait_name(*h) && b@ == fn_mut_signature(*h, ws@),
            None => closure_trait_name(*h).len() == 0,
        },
{
    if crate::handlers::any_mut_primitive(&h.args) {
        return None;
    }
    let p = snake_to_pascal_case(h.c_type_name.as_str());
    let name = concat2(p.as_str(), "Callback");
    let ci = match crate::handlers::clientd_index(&h.args) {
        Some(k) => k,
        None => 0,
    };
    let types = crate::handlers::fn_mut_types(&h.args, h.args[ci].name.as_str(), ws);
    let mut sig = String::new();
    push_str(&mut sig, "FnMut(");
    push_str(&mut sig, join(&types, ", ").as_str());
    push_str(&mut sig, ") -> ");
    push_str(&mut sig, h.return_type.c_type.as_str());
    assert(sig@ =~= fn_mut_signature(*h, ws@));
    proof {
        broadcast use vstd::string::group_string_axioms;
        reveal_strlit("Callback");
    }
    assert(name@.len() > 0);
    Some((name, sig))
}

/// See `closures_replaced`.
fn replace_closures(text: String, hs: &Vec<CHandler>, ws: &[CWrapper]) -> (r: String)
    requires
        handlers_complete(hs@),
    ensures
        r@ == closures_replaced(text@, hs@, ws@),
{
    let mut out = text;
    let ghost t0 = out@;
    let mut i: usize = 0;
    while i < hs.len()
        invariant
            i <= hs@.len(),
            handlers_complete(hs@),
            out@ == closures_replaced(t0, hs@.take(i as int), ws@),
        decreases hs@.len() - i,
    {
        proof {
            let tk = hs@.take(i + 1);
            assert(tk.drop_last() =~= hs@.take(i as int));
            assert(tk.last() == hs@[i as int]);
        }
        match closure_replacement(&hs[i], ws) {
            Some((a, b)) => {
                out = replace_all_str(out.as_str(), a.as_str(), b.as_str());
            },
            None => {},
        }
        i += 1;
    }
    assert(hs@.take(hs@.len() as int) =~= hs@);
    out
}

/// See `once_params_text`.
fn once_params(self_type: &str, args: &Vec<Arg>, ws: &[CWrapper]) -> (r: Vec<String>)
    ensures
        r@.map_values(|p: String| p@) == once_params_text(self_type@, args@, ws@),
{
    let mut out: Vec<String> = Vec::new();
    let mut i: usize = 0;
    while i < args.len()
        invariant
            i <= args@.len(),
            out@.map_values(|p: String| p@) == once_params_text(self_type@, args@.take(i as int), ws@),
        decreases args@.len() - i,
    {
        let a = &args[i];
        let ghost before = out@;
        let key = crate::generator::wrapper_key_of(a);
        let own = match crate::generator::find_wrapper(ws, key.as_str()) {
            Some(j) => crate::text::str_eq(ws[j].c_type_name.as_str(), self_type),
            None => false,
        };
        if !own {
            let t = crate::generator::new_type_text(a, ws, false, true);
            if t.as_str().unicode_len() > 0 {
                let handler = match &a.processing {
                    ArgProcessing::Handler(_) => !a.is_mut_pointer() && a.name.as_str().unicode_len() > 0,
                    _ => false,
                };
                if handler {
                    let p = snake_to_pascal_case(a.c_type.as_str());
                    let mut text = String::new();
                    push_str(&mut text, "mut ");
                    push_str(&mut text, a.name.as_str());
                    push_str(&mut text, ": ");
                    push_str(&mut text, p.as_str());
                    push_str(&mut text, "HandlerImpl");
                    assert(text@ =~= "mut "@ + a.name@ + ": "@ + handler_impl_name(a.c_type@));
                    out.push(text);
                } else {
                    out.push(concat3(a.name.as_str(), ": ", t.as_str()));
                }
            }
        }
        proof {
            let tk = args@.take(i + 1);
            assert(tk.drop_last() =~= args@.take(i as int));
            assert(tk.last() == args@[i as int]);
            assert(out@.map_values(|p: String| p@) =~= match once_param_text(self_type@, args@[i as int], ws@) {
                Some(x) => before.map_values(|p: String| p@).push(x),
                None => before.map_values(|p: String| p@),
            });
        }
        i += 1;
    }
    assert(args@.take(args@.len() as int) =~= args@);
    out
}

/// See `once_call_args_text`.
fn once_call_args(self_type: &str, args: &Vec<Arg>, ws: &[CWrapper]) -> (r: Vec<String>)
    requires
        forall|k: int| 0 <= k < args@.len() ==> (wrapper_for(ws@, wrapper_key(#[trigger] args@[k])) is None
            && rs_to_c_needs_pair(args@[k])) ==> processing_members(args@[k].processing).len() >= 2,
    ensures
        r@.map_values(|p: String| p@) == once_call_args_text(self_type@, args@, ws@),
{
    let mut out: Vec<String> = Vec::new();
    let mut i: usize = 0;
    while i < args.len()
        invariant
            i <= args@.len(),
            forall|k: int| 0 <= k < args@.len() ==> (wrapper_for(ws@, wrapper_key(#[trigger] args@[k])) is None
                && rs_to_c_needs_pair(args@[k])) ==> processing_members(args@[k].processing).len() >= 2,
            out@.map_values(|p: String| p@) == once_call_args_text(self_type@, args@.take(i as int), ws@),
        decreases args@.len() - i,
    {
        let a = &args[i];
        let ghost before = out@;
        let key = crate::generator::wrapper_key_of(a);
        let t = match crate::generator::find_wrapper(ws, key.as_str()) {
            Some(_) => {
                if crate::text::str_ends_with(a.c_type.as_str(), self_type) {
                    crate::text::owned("self.get_inner()")
                } else {
                    concat2(a.name.as_str(), ".get_inner()")
                }
            },
            None => match &a.processing {
                ArgProcessing::Handler(hc) => {
                    if a.is_mut_pointer() {
                        crate::generator::rs_to_c_text(a, a.name.as_str(), false)
                    } else {
                        let p = snake_to_pascal_case(a.c_type.as_str());
                        let mut text = String::new();
                        push_str(&mut text, "Some(");
                        push_str(&mut text, hc[0].c_type.as_str());
                        push_str(&mut text, "_callback_for_once_closure::<");
                        push_str(&mut text, p.as_str());
                        push_str(&mut text, "HandlerImpl");
                        push_str(&mut text, ">), &mut ");
                        push_str(&mut text, hc[0].name.as_str());
                        push_str(&mut text, " as *mut _ as *mut std::os::raw::c_void");
                        assert(text@ =~= once_call_arg_text(self_type@, *a, ws@));
                        text
                    }
                },
                _ => crate::generator::rs_to_c_text(a, a.name.as_str(), false),
            },
        };
        if t.as_str().unicode_len() > 0 {
            out.push(t);
        }
        proof {
            let tk = args@.take(i + 1);
            assert(tk.drop_last() =~= args@.take(i as int));
            assert(tk.last() == args@[i as int]);
            assert(out@.map_values(|p: String| p@) =~= if once_call_arg_text(self_type@, args@[i as int], ws@).len() == 0 {
                before.map_values(|p: String| p@)
            } else {
                before.map_values(|p: String| p@).push(once_call_arg_text(self_type@, args@[i as int], ws@))
            });
        }
        i += 1;
    }
    assert(args@.take(args@.len() as int) =~= args@);
    out
}

/// Whether a method gets a one-shot variant (see `has_once_variant`).
fn once_variant(m: &Method) -> (r: bool)
    ensures
        r == has_once_variant(*m),
{
    let mut found = false;
    let mut i: usize = 0;
    while i < m.arguments.len()
        invariant
            i <= m.arguments@.len(),
            found == exists|k: int| 0 <= k < i && processing_kind((#[trigger] m.arguments@[k]).processing) == ProcessingKind::Handler,
        decreases m.arguments@.len() - i,
    {
        match &m.arguments[i].processing {
            ArgProcessing::Handler(_) => {
                found = true;
            },
            _ => {},
        }
        i += 1;
    }
    found && !str_starts_with(m.fn_name.as_str(), "set_") && !str_starts_with(m.fn_name.as_str(), "add_")
}

impl CWrapper {
    /// The one-shot variant of `method` (see `once_method_text`), with the
    /// callback types of the bindings.
    pub fn generate_once_method(&self, method: &Method, wrappers: &[CWrapper], closure_handlers: &Vec<CHandler>) -> (r: String)
        requires
            crate::generator::method_groupings_complete(*method, wrappers@),
            handlers_complete(closure_handlers@),
        ensures
            r@ == once_method_text(self.c_type_name@, *method, wrappers@, closure_handlers@),
    {
        if !once_variant(method) {
            return String::new();
        }
        let st = self.c_type_name.as_str();
        let (_, uses_self) = crate::generator::call_arguments(st, &method.arguments, wrappers);
        let w = replace_closures(where_clause(&method.arguments), closure_handlers, wrappers);
        let params = join(&once_params(st, &method.arguments, wrappers), ", ");
        let names = join(&once_call_args(st, &method.arguments, wrappers), ", ");
        let ret0 = crate::generator::new_type_text(&method.return_type, wrappers, true, false);
        let ret = if !uses_self && crate::text::str_eq(ret0.as_str(), "&str") {
            crate::text::owned("&'static str")
        } else {
            ret0
        };
        let conv = crate::generator::c_to_rs_text(&method.return_type, "result", true, false);
        let docs = crate::docs::method_docs(&self.plain_doc_lines_exec(method, wrappers));
        let mut out = String::new();
        push_str(&mut out, "\n#[inline]\n");
        push_str(&mut out, docs.as_str());
        push_str(&mut out, "///\n///\n/// _NOTE: aeron must not store this closure and instead use it immediately. If not you will get undefined behaviour,\n///  use with care_\npub fn ");
        push_str(&mut out, method.struct_method_name.as_str());
        push_str(&mut out, "_once");
        push_str(&mut out, w.as_str());
        push_str(&mut out, "(");
        if uses_self {
            push_str(&mut out, "&self, ");
        }
        push_str(&mut out, params.as_str());
        push_str(&mut out, ") -> ");
        push_str(&mut out, ret.as_str());
        push_str(&mut out, " { ");
        if crate::text::str_eq(method.struct_method_name.as_str(), "close") {
            push_str(&mut out, "if let Some(inner) = self.inner.as_owned() { inner.close_already_called.set(true); } ");
        }
        push_str(&mut out, "unsafe { let result = ");
        push_str(&mut out, method.fn_name.as_str());
        push_str(&mut out, "(");
        push_str(&mut out, names.as_str());
        push_str(&mut out, "); ");
        push_str(&mut out, conv.as_str());
        push_str(&mut out, " } }");
        assert(out@ =~= once_method_text(self.c_type_name@, *method, wrappers@, closure_handlers@));
        out
    }
}

} // verus!
