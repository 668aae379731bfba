use vstd::prelude::*;

use crate::bindings::{
    c_void_count, excluded_handler_prefixes, excluded_wrapper_prefixes, handler_return_text,
    method_owner, replace_all, starts_with_none, CHandler,
};
use crate::chars::trimmed;
use crate::dpdk_env::first_index;
use crate::generator::{arg_name_type, processing_kind, processing_members, Arg, ArgProcessing, CWrapper, Method, ProcessingKind};
use crate::parser::{grouping_after, pascal_case};
use crate::text::{seq_contains_seq, seq_starts_with};

verus! {

/// The kinds of top-level items of a bindings file that the walk reads.
#[derive(Debug, Clone, Copy, PartialEq, Eq, Structural)]
pub enum ItemKind {
    Struct,
    TypeDef,
    ForeignMod,
    Other,
}

/// Optional text, by view.
pub open spec fn opt_seq(o: Option<String>) -> Option<Seq<char>> {
    match o {
        Some(t) => Some(t@),
        None => None,
    }
}

/// The views of a list of items: kind and token text.
pub open spec fn item_views(v: Seq<(ItemKind, String)>) -> Seq<(ItemKind, Seq<char>)> {
    v.map_values(|p: (ItemKind, String)| (p.0, p.1@))
}

/// The views of a list of optional texts.
pub open spec fn opt_views(v: Seq<Option<String>>) -> Seq<Option<Seq<char>>> {
    v.map_values(|o: Option<String>| opt_seq(o))
}

/// The views of a list of texts.
pub open spec fn seq_views(v: Seq<String>) -> Seq<Seq<char>> {
    v.map_values(|t: String| t@)
}

/// The views of a list of optionally named typed entries.
pub open spec fn named_views(v: Seq<(Option<String>, String)>) -> Seq<(Option<Seq<char>>, Seq<char>)> {
    v.map_values(|p: (Option<String>, String)| (opt_seq(p.0), p.1@))
}

/// The items of a Rust source file (`syn::parse_file`): each item's kind and
/// its token text; `None` when the text is no Rust file.
pub uninterp spec fn file_items(text: Seq<char>) -> Option<Seq<(ItemKind, Seq<char>)>>;

/// Parses a Rust source file with `syn::parse_file` and lists its items, each
/// as its kind and its token text (`quote::ToTokens`).
#[verifier::external_body]
fn parse_file_items(text: &str) -> (r: Option<Vec<(ItemKind, String)>>)
    ensures
        match file_items(text@) {
            Some(v) => r matches Some(w) && item_views(w@) == v,
            None => r is None,
        },
{
    let file = syn::parse_file(text).ok()?;
    Some(file.items.iter().map(|i| (match i {
        syn::Item::Struct(_) => ItemKind::Struct,
        syn::Item::Type(_) => ItemKind::TypeDef,
        syn::Item::ForeignMod(_) => ItemKind::ForeignMod,
        _ => ItemKind::Other,
    }, quote::ToTokens::to_token_stream(i).to_string())).collect())
}

/// A struct item's name, its fields (name, if any, and type token text) and
/// the token text of its attributes (`syn::ItemStruct`).
pub uninterp spec fn struct_item(tokens: Seq<char>) -> Option<(Seq<char>, Seq<(Option<Seq<char>>, Seq<char>)>, Seq<Seq<char>>)>;

/// Parses a struct item (`syn::parse_str::<syn::ItemStruct>`) into its name,
/// fields and attributes.
#[verifier::external_body]
fn parse_struct_item(tokens: &str) -> (r: Option<(String, Vec<(Option<String>, String)>, Vec<String>)>)
    ensures
        match struct_item(tokens@) {
            Some(v) => r matches Some(w) && (w.0@, named_views(w.1@), seq_views(w.2@)) == v,
            None => r is None,
        },
{
    let s = syn::parse_str::<syn::ItemStruct>(tokens).ok()?;
    let fields = s.fields.iter().map(|f| (f.ident.as_ref().map(|i| i.to_string()),
        quote::ToTokens::to_token_stream(&f.ty).to_string())).collect();
    let attrs = s.attrs.iter().map(|a| quote::ToTokens::to_token_stream(a).to_string()).collect();
    Some((s.ident.to_string(), fields, attrs))
}

/// A type alias item's name, its attributes (token text) and the token text
/// of its type (`syn::ItemType`).
pub uninterp spec fn type_item(tokens: Seq<char>) -> Option<(Seq<char>, Seq<Seq<char>>, Seq<char>)>;

/// Parses a type alias item (`syn::parse_str::<syn::ItemType>`).
#[verifier::external_body]
fn parse_type_item(tokens: &str) -> (r: Option<(String, Vec<String>, String)>)
    ensures
        match type_item(tokens@) {
            Some(v) => r matches Some(w) && (w.0@, seq_views(w.1@), w.2@) == v,
            None => r is None,
        },
{
    let t = syn::parse_str::<syn::ItemType>(tokens).ok()?;
    let attrs = t.attrs.iter().map(|a| quote::ToTokens::to_token_stream(a).to_string()).collect();
    Some((t.ident.to_string(), attrs, quote::ToTokens::to_token_stream(&t.ty).to_string()))
}

/// A path type's last segment name and, when that segment has angle
/// bracketed arguments whose first is a type, that type's token text
/// (`syn::TypePath`); `None` when the text is no path type.
pub uninterp spec fn type_path_item(tokens: Seq<char>) -> Option<(Seq<char>, Option<Seq<char>>)>;

/// Parses a path type (`syn::parse_str::<syn::TypePath>`).
#[verifier::external_body]
fn parse_type_path(tokens: &str) -> (r: Option<(String, Option<String>)>)
    ensures
        match type_path_item(tokens@) {
            Some(v) => r matches Some(w) && (w.0@, opt_seq(w.1)) == v,
            None => r is None,
        },
{
    let p = syn::parse_str::<syn::TypePath>(tokens).ok()?;
    let s = p.path.segments.last()?;
    let first = match &s.arguments {
        syn::PathArguments::AngleBracketed(a) => match a.args.first() {
            Some(syn::GenericArgument::Type(t)) => Some(quote::ToTokens::to_token_stream(t).to_string()),
            _ => None,
        },
        _ => None,
    };
    Some((s.ident.to_string(), first))
}

/// A function pointer type's arguments (name, if any, and type token text)
/// and the token text of its output (`syn::TypeFnPtr`); `None` when the text
/// is no function pointer type.
pub uninterp spec fn fn_ptr_item(tokens: Seq<char>) -> Option<(Seq<(Option<Seq<char>>, Seq<char>)>, Seq<char>)>;

/// Parses a function pointer type (`syn::parse_str::<syn::TypeFnPtr>`).
#[verifier::external_body]
fn parse_fn_ptr(tokens: &str) -> (r: Option<(Vec<(Option<String>, String)>, String)>)
    ensures
        match fn_ptr_item(tokens@) {
            Some(v) => r matches Some(w) && (named_views(w.0@), w.1@) == v,
            None => r is None,
        },
{
    let f = syn::parse_str::<syn::TypeFnPtr>(tokens).ok()?;
    let inputs = f.inputs.iter().map(|i| (i.name.as_ref().map(|n| n.0.to_string()),
        quote::ToTokens::to_token_stream(&i.ty).to_string())).collect();
    Some((inputs, quote::ToTokens::to_token_stream(&f.output).to_string()))
}

/// An `extern` block's ABI name and, for each of its items, the token text
/// of the item when it is a function (`syn::ItemForeignMod`).
pub uninterp spec fn foreign_mod_item(tokens: Seq<char>) -> Option<(Option<Seq<char>>, Seq<Option<Seq<char>>>)>;

/// Parses an `extern` block (`syn::parse_str::<syn::ItemForeignMod>`).
#[verifier::external_body]
fn parse_foreign_mod(tokens: &str) -> (r: Option<(Option<String>, Vec<Option<String>>)>)
    ensures
        match foreign_mod_item(tokens@) {
            Some(v) => r matches Some(w) && (opt_seq(w.0), opt_views(w.1@)) == v,
            None => r is None,
        },
{
    let m = syn::parse_str::<syn::ItemForeignMod>(tokens).ok()?;
    Some((m.abi.name.as_ref().map(|n| n.value()), m.items.iter().map(|i| match i {
        syn::ForeignItem::Fn(f) => Some(quote::ToTokens::to_token_stream(f).to_string()),
        _ => None,
    }).collect()))
}

/// A foreign function's name, the token text of each argument (`self` for
/// a receiver), the token text of its return type if it declares one, and
/// its attributes (`syn::ForeignItemFn`).
pub uninterp spec fn foreign_fn_item(tokens: Seq<char>) -> Option<(Seq<char>, Seq<Seq<char>>, Option<Seq<char>>, Seq<Seq<char>>)>;

/// Parses a foreign function (`syn::parse_str::<syn::ForeignItemFn>`).
#[verifier::external_body]
fn parse_foreign_fn(tokens: &str) -> (r: Option<(String, Vec<String>, Option<String>, Vec<String>)>)
    ensures
        match foreign_fn_item(tokens@) {
            Some(v) => r matches Some(w) && (w.0@, seq_views(w.1@), opt_seq(w.2), seq_views(w.3@)) == v,
            None => r is None,
        },
{
    let f = syn::parse_str::<syn::ForeignItemFn>(tokens).ok()?;
    let args = f.sig.inputs.iter().map(|a| match a {
        syn::FnArg::Receiver(_) => "self".to_string(),
        syn::FnArg::Typed(p) => quote::ToTokens::to_token_stream(p).to_string(),
    }).collect();
    let output = match &f.sig.output {
        syn::ReturnType::Default => None,
        syn::ReturnType::Type(_, t) => Some(quote::ToTokens::to_token_stream(t).to_string()),
    };
    Some((f.sig.ident.to_string(), args, output, f.attrs.iter().map(|a| quote::ToTokens::to_token_stream(a).to_string()).collect()))
}

/// An outer attribute's path token text and, when it is `path = "..."`,
/// the value of that string literal (`syn::Attribute::parse_outer`).
pub uninterp spec fn attribute_item(tokens: Seq<char>) -> Option<(Seq<char>, Option<Seq<char>>)>;

/// Parses one outer attribute (`syn::Attribute::parse_outer`).
#[verifier::external_body]
fn parse_attribute(tokens: &str) -> (r: Option<(String, Option<String>)>)
    ensures
        match attribute_item(tokens@) {
            Some(v) => r matches Some(w) && (w.0@, opt_seq(w.1)) == v,
            None => r is None,
        },
{
    let attrs = syn::parse::Parser::parse_str(syn::Attribute::parse_outer, tokens).ok()?;
    let a = attrs.first()?;
    let value = match &a.meta {
        syn::Meta::NameValue(syn::MetaNameValue { value: syn::Expr::Lit(syn::ExprLit { lit: syn::Lit::Str(s), .. }), .. }) => Some(s.value()),
        _ => None,
    };
    Some((quote::ToTokens::to_token_stream(a.path()).to_string(), value))
}

/// `a` comes before `b` in the order of `String`: character by character
/// (by code point), a proper prefix first.
pub open spec fn text_less(a: Seq<char>, b: Seq<char>) -> bool
    decreases a.len(),
{
    if b.len() == 0 {
        false
    } else if a.len() == 0 {
        true
    } else if a[0] != b[0] {
        (a[0] as u32) < (b[0] as u32)
    } else {
        text_less(a.drop_first(), b.drop_first())
    }
}

/// `x` added to the ordered set of texts `s` (`BTreeSet::insert`): before
/// the first element it precedes, unless it is there already.
pub open spec fn set_insert(s: Seq<Seq<char>>, x: Seq<char>) -> Seq<Seq<char>>
    decreases s.len(),
{
    if s.len() == 0 {
        seq![x]
    } else if s[0] == x {
        s
    } else if text_less(x, s[0]) {
        seq![x] + s
    } else {
        seq![s[0]] + set_insert(s.drop_first(), x)
    }
}

/// The texts added to the ordered set one after the other (`extend`).
pub open spec fn set_insert_all(s: Seq<Seq<char>>, xs: Seq<Seq<char>>) -> Seq<Seq<char>>
    decreases xs.len(),
{
    if xs.len() == 0 {
        s
    } else {
        set_insert(set_insert_all(s, xs.drop_last()), xs.last())
    }
}

/// See `text_less`.
pub(crate) fn str_less(a: &str, b: &str) -> (r: bool)
    ensures
        r == text_less(a@, b@),
{
    let x = crate::text::chars_of(a);
    let y = crate::text::chars_of(b);
    let mut i: usize = 0;
    assert(x@.skip(0) =~= x@);
    assert(y@.skip(0) =~= y@);
    while i < x.len() && i < y.len() && x[i] == y[i]
        invariant
            i <= x@.len(),
            i <= y@.len(),
            x@ == a@,
            y@ == b@,
            text_less(a@, b@) == text_less(x@.skip(i as int), y@.skip(i as int)),
        decreases x@.len() - i,
    {
        proof {
            let xs = x@.skip(i as int);
            let ys = y@.skip(i as int);
            assert(xs.drop_first() =~= x@.skip(i + 1));
            assert(ys.drop_first() =~= y@.skip(i + 1));
        }
        i += 1;
    }
    proof {
        let xs = x@.skip(i as int);
        let ys = y@.skip(i as int);
        if i < x.len() && i < y.len() {
            assert(xs[0] == x@[i as int]);
            assert(ys[0] == y@[i as int]);
        }
    }
    if i == y.len() {
        false
    } else if i == x.len() {
        true
    } else {
        (x[i] as u32) < (y[i] as u32)
    }
}

/// Adds `x` to the ordered set of texts `docs` (see `set_insert`).
pub(crate) fn doc_insert(docs: &mut Vec<String>, x: String)
    ensures
        final(docs)@.map_values(|t: String| t@) == set_insert(old(docs)@.map_values(|t: String| t@), x@),
{
    let ghost s = old(docs)@.map_values(|t: String| t@);
    let mut i: usize = 0;
    assert(s.take(0) + set_insert(s.skip(0), x@) =~= set_insert(s, x@)) by {
        assert(s.skip(0) =~= s);
    }
    while i < docs.len()
        invariant
            i <= docs@.len(),
            *docs == *old(docs),
            s == docs@.map_values(|t: String| t@),
            set_insert(s, x@) == s.take(i as int) + set_insert(s.skip(i as int), x@),
        decreases docs@.len() - i,
    {
        let ghost sk = s.skip(i as int);
        assert(sk[0] == docs@[i as int]@);
        if crate::text::str_eq(docs[i].as_str(), x.as_str()) {
            return;
        }
        if str_less(x.as_str(), docs[i].as_str()) {
            docs.insert(i, x);
            proof {
                assert(docs@.map_values(|t: String| t@) =~= s.take(i as int) + (seq![x@] + sk));
                assert(s.skip(i as int) =~= sk);
            }
            return;
        }
        proof {
            assert(sk.drop_first() =~= s.skip(i + 1));
            assert(s.take(i + 1) =~= s.take(i as int).push(sk[0]));
            assert(s.take(i as int) + (seq![sk[0]] + set_insert(sk.drop_first(), x@)) =~= s.take(i + 1) + set_insert(s.skip(i + 1), x@));
        }
        i += 1;
    }
    let ghost before = docs@;
    docs.push(x);
    proof {
        assert(s.skip(i as int) =~= Seq::<Seq<char>>::empty());
        assert(s.take(i as int) =~= s);
        assert(docs@.map_values(|t: String| t@) =~= s + seq![x@]);
    }
}

/// The name, type, grouping kind and grouped members of an argument.
pub type ArgView = (Seq<char>, Seq<char>, ProcessingKind, Seq<(Seq<char>, Seq<char>)>);

/// The C function name, method name, return value, arguments and
/// documentation of a method.
pub type MethodView = (Seq<char>, Seq<char>, ArgView, Seq<ArgView>, Seq<Seq<char>>);

/// The class name, C type name, name without `_t`, fields, methods and
/// documentation of a wrapper.
pub type WrapperView = (Seq<char>, Seq<char>, Seq<char>, Seq<ArgView>, Seq<MethodView>, Seq<Seq<char>>);

/// The C type name, arguments, return value and documentation of a callback type.
pub type HandlerView = (Seq<char>, Seq<ArgView>, ArgView, Seq<Seq<char>>);

/// What the walk over the items has built: the wrappers (ordered by C type
/// name), the methods of no wrapper, and the callback types.
pub type BindingsView = (Seq<WrapperView>, Seq<MethodView>, Seq<HandlerView>);

/// See `ArgView`.
pub open spec fn arg_view(a: Arg) -> ArgView {
    (a.name@, a.c_type@, processing_kind(a.processing), processing_members(a.processing))
}

/// See `MethodView`.
pub open spec fn method_view(m: Method) -> MethodView {
    (m.fn_name@, m.struct_method_name@, arg_view(m.return_type), m.arguments@.map_values(|a: Arg| arg_view(a)),
        m.docs@.map_values(|t: String| t@))
}

/// See `WrapperView`.
pub open spec fn wrapper_view(w: CWrapper) -> WrapperView {
    (w.class_name@, w.c_type_name@, w.without_name@, w.fields@.map_values(|a: Arg| arg_view(a)),
        w.methods@.map_values(|m: Method| method_view(m)), w.docs@.map_values(|t: String| t@))
}

/// See `HandlerView`.
pub open spec fn handler_view(h: CHandler) -> HandlerView {
    (h.c_type_name@, h.args@.map_values(|a: Arg| arg_view(a)), arg_view(h.return_type), h.docs@.map_values(|t: String| t@))
}

/// An argument with the given name and type, grouped with nothing.
pub open spec fn is_raw(a: Arg, n: Seq<char>, t: Seq<char>) -> bool {
    a.name@ == n && a.c_type@ == t && a.processing is Default
}

/// Arguments with the given names and types, grouped with nothing.
pub open spec fn raw_args(nt: Seq<(Seq<char>, Seq<char>)>) -> Seq<Arg> {
    Seq::new(nt.len(), |i: int| choose|a: Arg| is_raw(a, nt[i].0, nt[i].1))
}

/// The arguments once neighbours that belong together are grouped (see
/// `process_types`).
pub open spec fn grouped(raw: Seq<Arg>) -> Seq<ArgView> {
    Seq::new(raw.len(), |j: int| (raw[j].name@, raw[j].c_type@, grouping_after(raw, raw.len() as int, j).0,
        grouping_after(raw, raw.len() as int, j).1))
}

/// A return value: its type, with no name and no grouping.
pub open spec fn return_view(t: Seq<char>) -> ArgView {
    (Seq::empty(), t, ProcessingKind::Default, Seq::empty())
}

/// The documentation an item's attributes carry: the trimmed value of each
/// `doc = "..."` attribute, in order; `None` when an attribute does not parse.
pub open spec fn doc_values(attrs: Seq<Seq<char>>) -> Option<Seq<Seq<char>>>
    decreases attrs.len(),
{
    if attrs.len() == 0 {
        Some(Seq::empty())
    } else {
        match (doc_values(attrs.drop_last()), attribute_item(attrs.last())) {
            (Some(d), Some(a)) => if a.0 == "doc"@ && a.1 is Some {
                Some(d.push(trimmed(a.1->0)))
            } else {
                Some(d)
            },
            _ => None,
        }
    }
}

/// The index of the wrapper of C type `key`, from `from` on.
pub open spec fn wrapper_at(ws: Seq<WrapperView>, key: Seq<char>, from: int) -> Option<int>
    decreases ws.len() - from,
{
    if from < 0 || from >= ws.len() {
        None
    } else if ws[from].1 == key {
        Some(from)
    } else {
        wrapper_at(ws, key, from + 1)
    }
}

/// Where a wrapper of C type `key` is inserted: before the first wrapper
/// whose C type name does not precede it.
pub open spec fn insert_at(ws: Seq<WrapperView>, key: Seq<char>, from: int) -> int
    decreases ws.len() - from,
{
    if from < 0 || from >= ws.len() {
        ws.len() as int
    } else if !text_less(ws[from].1, key) {
        from
    } else {
        insert_at(ws, key, from + 1)
    }
}

/// The wrappers with the one of C type `key` added, if it is missing
/// (`BTreeMap::entry(key).or_insert`): named after its type, with no fields,
/// methods or documentation.
pub open spec fn with_wrapper(ws: Seq<WrapperView>, key: Seq<char>) -> Seq<WrapperView> {
    if wrapper_at(ws, key, 0) is Some {
        ws
    } else {
        ws.insert(
            insert_at(ws, key, 0),
            (pascal_case(key), key, key.take(key.len() - 2), Seq::empty(), Seq::empty(), Seq::empty()),
        )
    }
}

/// The wrappers with the documentation `docs` added to that of C type `key`
/// and, when `fields` is given, its fields set.
pub open spec fn update_wrapper(
    ws: Seq<WrapperView>,
    key: Seq<char>,
    docs: Seq<Seq<char>>,
    fields: Option<Seq<ArgView>>,
) -> Seq<WrapperView> {
    let ws1 = with_wrapper(ws, key);
    let i = wrapper_at(ws1, key, 0)->0;
    let w = ws1[i];
    ws1.update(i, (w.0, w.1, w.2, match fields {
        Some(f) => f,
        None => w.3,
    }, w.4, set_insert_all(w.5, docs)))
}

/// The step a struct item makes: its wrapper (type name with `_stct`
/// replaced by `_t`) gets its documentation and grouped fields.
pub open spec fn struct_step(b: BindingsView, tokens: Seq<char>) -> Option<BindingsView> {
    match struct_item(tokens) {
        Some(st) => {
            let key = replace_all(st.0, "_stct"@, "_t"@);
            if exists|k: int| 0 <= k < st.1.len() && (#[trigger] st.1[k]).0 is None {
                None
            } else if key.len() < 2 {
                None
            } else {
                match doc_values(st.2) {
                    Some(d) => Some((update_wrapper(b.0, key, d, Some(grouped(raw_args(
                        st.1.map_values(|f: (Option<Seq<char>>, Seq<char>)| (f.0->0, f.1)),
                    )))), b.1, b.2)),
                    None => None,
                }
            }
        },
        None => None,
    }
}

/// The arguments of a callback: unnamed ones get an empty name.
pub open spec fn callback_args(inputs: Seq<(Option<Seq<char>>, Seq<char>)>) -> Seq<Arg> {
    raw_args(inputs.map_values(|f: (Option<Seq<char>>, Seq<char>)| (match f.0 {
        Some(n) => n,
        None => Seq::empty(),
    }, f.1)))
}

/// The signature of a callback type: a path type whose last segment is
/// `Option` and whose first type argument is a function pointer type.
pub open spec fn callback_shape(ty: Seq<char>) -> Option<(Seq<(Option<Seq<char>>, Seq<char>)>, Seq<char>)> {
    match type_path_item(ty) {
        Some(p) => if p.0 == "Option"@ {
            match p.1 {
                Some(arg) => fn_ptr_item(arg),
                None => None,
            }
        } else {
            None
        },
        None => None,
    }
}

/// The step a type alias makes: an alias of a `_stct` struct gets (or
/// documents) its wrapper; an `Option` of a function pointer with exactly one
/// `c_void` argument declares a callback type.
pub open spec fn type_step(b: BindingsView, tokens: Seq<char>) -> Option<BindingsView> {
    match type_item(tokens) {
        Some(ti) => match doc_values(ti.1) {
            Some(d) => if seq_contains_seq(tokens, "_stct"@) {
                if ti.0.len() < 2 {
                    None
                } else {
                    Some((update_wrapper(b.0, ti.0, d, None), b.1, b.2))
                }
            } else {
                match callback_shape(ti.2) {
                    Some(sig) => {
                        let raw = callback_args(sig.0);
                        if c_void_count(raw) == 1 {
                            Some((b.0, b.1, b.2.push((ti.0, grouped(raw), return_view(handler_return_text(sig.1)),
                                set_insert_all(Seq::empty(), d)))))
                        } else {
                            Some(b)
                        }
                    },
                    None => Some(b),
                }
            },
            None => None,
        },
        None => None,
    }
}

/// An argument's `name : type` text, split at the first `:` and trimmed.
pub open spec fn split_arg(text: Seq<char>) -> (Seq<char>, Seq<char>) {
    let k = first_index(text, ':', 0)->0;
    (trimmed(text.take(k)), trimmed(text.skip(k + 1)))
}

/// The step a foreign function makes: it becomes a method of the wrapper it
/// belongs to (named without the wrapper's type name) or a method of none.
pub open spec fn fn_step(b: BindingsView, tokens: Seq<char>) -> Option<BindingsView> {
    match foreign_fn_item(tokens) {
        Some(f) => {
            if exists|k: int| 0 <= k < f.1.len() && first_index(#[trigger] f.1[k], ':', 0) is None {
                None
            } else {
                match doc_values(f.3) {
                    Some(d) => {
                        let raw = raw_args(f.1.map_values(|t: Seq<char>| split_arg(t)));
                        let ret = return_view(match f.2 {
                            Some(t) => t,
                            None => "()"@,
                        });
                        let docs = set_insert_all(Seq::empty(), d);
                        match method_owner(raw, f.0, b.0.map_values(|w: WrapperView| w.1)) {
                            Some(key) => if key.len() == 0 {
                                None
                            } else {
                                let i = wrapper_at(b.0, key, 0)->0;
                                let w = b.0[i];
                                let m = (f.0, replace_all(f.0, key.take(key.len() - 1), Seq::empty()), ret, grouped(raw), docs);
                                Some((b.0.update(i, (w.0, w.1, w.2, w.3, w.4.push(m), w.5)), b.1, b.2))
                            },
                            None => Some((b.0, b.1.push((f.0, Seq::empty(), ret, grouped(raw), docs)), b.2)),
                        }
                    },
                    None => None,
                }
            }
        },
        None => None,
    }
}

/// The steps the functions of an `extern "C"` block make, in order.
pub open spec fn fns_step(b: BindingsView, fns: Seq<Option<Seq<char>>>) -> Option<BindingsView>
    decreases fns.len(),
{
    if fns.len() == 0 {
        Some(b)
    } else {
        match fns_step(b, fns.drop_last()) {
            Some(b1) => match fns.last() {
                Some(t) => fn_step(b1, t),
                None => Some(b1),
            },
            None => None,
        }
    }
}

/// The step an `extern` block makes: its functions, when its ABI is `"C"`.
pub open spec fn foreign_step(b: BindingsView, tokens: Seq<char>) -> Option<BindingsView> {
    match foreign_mod_item(tokens) {
        Some(fm) => if fm.0 == Some("C"@) {
            fns_step(b, fm.1)
        } else {
            Some(b)
        },
        None => None,
    }
}

/// The step one item makes.
pub open spec fn item_step(b: BindingsView, item: (ItemKind, Seq<char>)) -> Option<BindingsView> {
    match item.0 {
        ItemKind::Struct => struct_step(b, item.1),
        ItemKind::TypeDef => type_step(b, item.1),
        ItemKind::ForeignMod => foreign_step(b, item.1),
        ItemKind::Other => Some(b),
    }
}

/// The walk over the items, in order, from nothing.
pub open spec fn walk(items: Seq<(ItemKind, Seq<char>)>) -> Option<BindingsView>
    decreases items.len(),
{
    if items.len() == 0 {
        Some((Seq::empty(), Seq::empty(), Seq::empty()))
    } else {
        match walk(items.drop_last()) {
            Some(b) => item_step(b, items.last()),
            None => None,
        }
    }
}

/// The bindings a file declares: the walk over its items, without the
/// wrappers and callback types of the media driver's internals.
pub open spec fn bindings_of(text: Seq<char>) -> Option<BindingsView> {
    match file_items(text) {
        Some(items) => match walk(items) {
            Some(b) => Some((
                b.0.filter(|w: WrapperView| starts_with_none(w.1, excluded_wrapper_prefixes())),
                b.1,
                b.2.filter(|h: HandlerView| starts_with_none(h.0, excluded_handler_prefixes())),
            )),
            None => None,
        },
        None => None,
    }
}

/// The views of a list of wrappers.
pub open spec fn wrapper_views(ws: Seq<CWrapper>) -> Seq<WrapperView> {
    ws.map_values(|w: CWrapper| wrapper_view(w))
}

/// The views of a list of arguments.
pub open spec fn arg_views(v: Seq<Arg>) -> Seq<ArgView> {
    v.map_values(|a: Arg| arg_view(a))
}

/// Arguments that agree on names and types and are grouped with nothing
/// give the same grouping, `c_void` count and owner.
proof fn lemma_raw_congruent(v: Seq<Arg>, nt: Seq<(Seq<char>, Seq<char>)>)
    requires
        v.len() == nt.len(),
        forall|i: int| 0 <= i < v.len() ==> is_raw(#[trigger] v[i], nt[i].0, nt[i].1),
    ensures
        grouped(v) == grouped(raw_args(nt)),
        c_void_count(v) == c_void_count(raw_args(nt)),
        forall|f: Seq<char>, names: Seq<Seq<char>>| #[trigger] method_owner(v, f, names) == method_owner(raw_args(nt), f, names),
{
    let w = raw_args(nt);
    assert forall|i: int| 0 <= i < v.len() implies is_raw(#[trigger] w[i], nt[i].0, nt[i].1) by {
        assert(is_raw(v[i], nt[i].0, nt[i].1));
    }
    assert forall|i: int| 0 <= i < v.len() implies #[trigger] arg_name_type(v[i]) == arg_name_type(w[i]) && v[i].c_type@ == w[i].c_type@
        && v[i].processing is Default && w[i].processing is Default by {
        assert(is_raw(v[i], nt[i].0, nt[i].1));
        assert(is_raw(w[i], nt[i].0, nt[i].1));
    }
    assert(v.map_values(|a: Arg| arg_name_type(a)) =~= w.map_values(|a: Arg| arg_name_type(a)));
    assert(grouped(v) =~= grouped(w));
    lemma_c_void_congruent(v, w);
    lemma_owner_arg_congruent(v, w, 0);
    assert forall|f: Seq<char>, names: Seq<Seq<char>>| #[trigger] method_owner(v, f, names) == method_owner(w, f, names) by {
        match crate::bindings::first_owner_arg(v, 0) {
            Some(k) => {
                lemma_owner_arg_in_range(v, 0);
                assert(v[k].c_type@ == w[k].c_type@);
            },
            None => {},
        }
    }
}

proof fn lemma_owner_arg_in_range(v: Seq<Arg>, from: int)
    requires
        0 <= from,
    ensures
        crate::bindings::first_owner_arg(v, from) matches Some(k) ==> from <= k < v.len(),
    decreases v.len() - from,
{
    if from < v.len() {
        lemma_owner_arg_in_range(v, from + 1);
    }
}

proof fn lemma_c_void_congruent(v: Seq<Arg>, w: Seq<Arg>)
    requires
        v.len() == w.len(),
        forall|i: int| 0 <= i < v.len() ==> (#[trigger] v[i]).c_type@ == w[i].c_type@,
    ensures
        c_void_count(v) == c_void_count(w),
    decreases v.len(),
{
    if v.len() > 0 {
        lemma_c_void_congruent(v.drop_last(), w.drop_last());
        assert(v.last().c_type@ == w.last().c_type@);
    }
}

proof fn lemma_owner_arg_congruent(v: Seq<Arg>, w: Seq<Arg>, from: int)
    requires
        v.len() == w.len(),
        forall|i: int| 0 <= i < v.len() ==> (#[trigger] v[i]).c_type@ == w[i].c_type@,
    ensures
        crate::bindings::first_owner_arg(v, from) == crate::bindings::first_owner_arg(w, from),
    decreases v.len() - from,
{
    if 0 <= from < v.len() {
        assert(v[from].c_type@ == w[from].c_type@);
        lemma_owner_arg_congruent(v, w, from + 1);
    }
}

/// See `wrapper_at`.
fn wrapper_pos(ws: &Vec<CWrapper>, key: &str) -> (r: Option<usize>)
    ensures
        match wrapper_at(wrapper_views(ws@), key@, 0) {
            Some(i) => r matches Some(j) && j == i,
            None => r is None,
        },
        r matches Some(j) ==> j < ws@.len(),
{
    let ghost vs = wrapper_views(ws@);
    let mut i: usize = 0;
    while i < ws.len()
        invariant
            i <= ws@.len(),
            vs == wrapper_views(ws@),
            wrapper_at(vs, key@, 0) == wrapper_at(vs, key@, i as int),
        decreases ws@.len() - i,
    {
        assert(vs[i as int].1 == ws@[i as int].c_type_name@);
        if crate::text::str_eq(ws[i].c_type_name.as_str(), key) {
            return Some(i);
        }
        i += 1;
    }
    None
}

/// See `insert_at`.
fn insert_pos(ws: &Vec<CWrapper>, key: &str) -> (r: usize)
    ensures
        r == insert_at(wrapper_views(ws@), key@, 0),
        r <= ws@.len(),
{
    let ghost vs = wrapper_views(ws@);
    let mut i: usize = 0;
    while i < ws.len()
        invariant
            i <= ws@.len(),
            vs == wrapper_views(ws@),
            insert_at(vs, key@, 0) == insert_at(vs, key@, i as int),
        decreases ws@.len() - i,
    {
        assert(vs[i as int].1 == ws@[i as int].c_type_name@);
        if !str_less(ws[i].c_type_name.as_str(), key) {
            return i;
        }
        i += 1;
    }
    i
}

/// Adds the wrapper of C type `key` if it is missing (see `with_wrapper`),
/// and gives its index.
fn ensure_wrapper(ws: &mut Vec<CWrapper>, key: &str) -> (r: usize)
    requires
        key@.len() >= 2,
    ensures
        wrapper_views(final(ws)@) == with_wrapper(wrapper_views(old(ws)@), key@),
        wrapper_at(wrapper_views(final(ws)@), key@, 0) == Some(r as int),
        r < final(ws)@.len(),
{
    let ghost vs = wrapper_views(ws@);
    match wrapper_pos(ws, key) {
        Some(i) => i,
        None => {
            let at = insert_pos(ws, key);
            let cs = crate::text::chars_of(key);
            let w = CWrapper {
                class_name: crate::parser::snake_to_pascal_case(key),
                c_type_name: crate::text::owned(key),
                without_name: crate::text::string_from_chars(cs.as_slice(), cs.len() - 2),
                fields: Vec::new(),
                methods: Vec::new(),
                docs: Vec::new(),
            };
            ws.insert(at, w);
            proof {
                assert(w.fields@.map_values(|a: Arg| arg_view(a)) =~= Seq::<ArgView>::empty());
                assert(w.methods@.map_values(|m: Method| method_view(m)) =~= Seq::<MethodView>::empty());
                assert(w.docs@.map_values(|t: String| t@) =~= Seq::<Seq<char>>::empty());
                assert(cs@.subrange(0, cs@.len() - 2) =~= key@.take(key@.len() - 2));
                let nv = wrapper_views(ws@);
                assert(nv =~= with_wrapper(vs, key@));
                lemma_wrapper_at_insert(vs, key@, at as int);
            }
            at
        },
    }
}

/// Once a missing key is inserted where `insert_at` says, it is found there.
proof fn lemma_wrapper_at_insert(vs: Seq<WrapperView>, key: Seq<char>, at: int)
    requires
        wrapper_at(vs, key, 0) is None,
        at == insert_at(vs, key, 0),
    ensures
        wrapper_at(with_wrapper(vs, key), key, 0) == Some(at),
{
    let nv = with_wrapper(vs, key);
    lemma_insert_at_bounds(vs, key, 0);
    assert forall|k: int| 0 <= k < at implies nv[k].1 != key by {
        assert(nv[k] == vs[k]);
        lemma_wrapper_at_none(vs, key, 0, k);
    }
    lemma_wrapper_at_found(nv, key, 0, at);
}

proof fn lemma_insert_at_bounds(vs: Seq<WrapperView>, key: Seq<char>, from: int)
    requires
        0 <= from,
    ensures
        from <= vs.len() ==> from <= insert_at(vs, key, from) <= vs.len(),
    decreases vs.len() - from,
{
    if from < vs.len() {
        lemma_insert_at_bounds(vs, key, from + 1);
    }
}

/// When the search from `from` finds nothing, no wrapper from there on has the key.
proof fn lemma_wrapper_at_none(vs: Seq<WrapperView>, key: Seq<char>, from: int, k: int)
    requires
        0 <= from <= k < vs.len(),
        wrapper_at(vs, key, from) is None,
    ensures
        vs[k].1 != key,
    decreases k - from,
{
    if from < k {
        lemma_wrapper_at_none(vs, key, from + 1, k);
    }
}

/// The search finds the first wrapper with the key.
proof fn lemma_wrapper_at_found(vs: Seq<WrapperView>, key: Seq<char>, from: int, at: int)
    requires
        0 <= from <= at < vs.len(),
        vs[at].1 == key,
        forall|k: int| from <= k < at ==> vs[k].1 != key,
    ensures
        wrapper_at(vs, key, from) == Some(at),
    decreases at - from,
{
    if from < at {
        lemma_wrapper_at_found(vs, key, from + 1, at);
    }
}

/// Adds the texts to the ordered set one after the other (see `set_insert_all`).
fn doc_insert_all(docs: &mut Vec<String>, xs: &Vec<String>)
    ensures
        final(docs)@.map_values(|t: String| t@) == set_insert_all(old(docs)@.map_values(|t: String| t@), seq_views(xs@)),
{
    let ghost s0 = docs@.map_values(|t: String| t@);
    let mut i: usize = 0;
    while i < xs.len()
        invariant
            i <= xs@.len(),
            docs@.map_values(|t: String| t@) == set_insert_all(s0, seq_views(xs@).take(i as int)),
        decreases xs@.len() - i,
    {
        doc_insert(docs, xs[i].clone());
        proof {
            let t = seq_views(xs@).take(i + 1);
            assert(t.drop_last() =~= seq_views(xs@).take(i as int));
            assert(t.last() == xs@[i as int]@);
        }
        i += 1;
    }
    assert(seq_views(xs@).take(xs@.len() as int) =~= seq_views(xs@));
}

/// The views of optional arguments.
pub open spec fn opt_arg_views(o: Option<Vec<Arg>>) -> Option<Seq<ArgView>> {
    match o {
        Some(f) => Some(arg_views(f@)),
        None => None,
    }
}

/// See `update_wrapper`.
fn update_wrapper_exec(ws: &mut Vec<CWrapper>, key: &str, docs: &Vec<String>, fields: Option<Vec<Arg>>)
    requires
        key@.len() >= 2,
    ensures
        wrapper_views(final(ws)@) == update_wrapper(wrapper_views(old(ws)@), key@, seq_views(docs@), opt_arg_views(fields)),
{
    let ghost fv = opt_arg_views(fields);
    let i = ensure_wrapper(ws, key);
    let ghost ws1 = wrapper_views(ws@);
    let mut w = ws.remove(i);
    assert(wrapper_view(w) == ws1[i as int]);
    match fields {
        Some(f) => {
            w.fields = f;
        },
        None => {},
    }
    doc_insert_all(&mut w.docs, docs);
    ws.insert(i, w);
    proof {
        let w0 = ws1[i as int];
        assert(wrapper_view(w) == (w0.0, w0.1, w0.2, match fv {
            Some(f) => f,
            None => w0.3,
        }, w0.4, set_insert_all(w0.5, seq_views(docs@))));
        assert(wrapper_views(ws@) =~= ws1.update(i as int, wrapper_view(w)));
    }
}

/// See `doc_values`.
fn doc_values_exec(attrs: &Vec<String>) -> (r: Option<Vec<String>>)
    ensures
        match doc_values(seq_views(attrs@)) {
            Some(d) => r matches Some(v) && seq_views(v@) == d,
            None => r is None,
        },
{
    let mut out: Vec<String> = Vec::new();
    let mut i: usize = 0;
    while i < attrs.len()
        invariant
            i <= attrs@.len(),
            doc_values(seq_views(attrs@).take(i as int)) == Some(seq_views(out@)),
        decreases attrs@.len() - i,
    {
        let ghost before = out@;
        proof {
            let t = seq_views(attrs@).take(i + 1);
            assert(t.drop_last() =~= seq_views(attrs@).take(i as int));
            assert(t.last() == attrs@[i as int]@);
        }
        match parse_attribute(attrs[i].as_str()) {
            Some((path, value)) => {
                if crate::text::str_eq(path.as_str(), "doc") {
                    match value {
                        Some(v) => {
                            let cs = crate::text::chars_of(v.as_str());
                            let t = crate::chars::trim_chars(&cs);
                            let d = crate::text::string_from_chars(t.as_slice(), t.len());
                            assert(t@.subrange(0, t@.len() as int) =~= t@);
                            assert(d@ == trimmed(v@));
                            out.push(d);
                            assert(seq_views(out@) =~= seq_views(before).push(trimmed(v@)));
                        },
                        None => {},
                    }
                }
            },
            None => {
                proof {
                    assert(doc_values(seq_views(attrs@).take(i + 1)) is None);
                    lemma_doc_values_fail(seq_views(attrs@), i + 1);
                }
                return None;
            },
        }
        i += 1;
    }
    assert(seq_views(attrs@).take(attrs@.len() as int) =~= seq_views(attrs@));
    Some(out)
}

/// A failure stays a failure as more attributes follow.
proof fn lemma_doc_values_fail(attrs: Seq<Seq<char>>, n: int)
    requires
        0 <= n <= attrs.len(),
        doc_values(attrs.take(n)) is None,
    ensures
        doc_values(attrs) is None,
    decreases attrs.len() - n,
{
    if n < attrs.len() {
        assert(attrs.take(n + 1).drop_last() =~= attrs.take(n));
        lemma_doc_values_fail(attrs, n + 1);
    } else {
        assert(attrs.take(n) =~= attrs);
    }
}

/// Arguments with the given names and types, grouped with nothing.
fn raw_arg_vec(nt: Vec<(String, String)>) -> (r: Vec<Arg>)
    ensures
        r@.len() == nt@.len(),
        forall|i: int| 0 <= i < r@.len() ==> is_raw(#[trigger] r@[i], nt@[i].0@, nt@[i].1@),
{
    let mut out: Vec<Arg> = Vec::new();
    let mut i: usize = 0;
    while i < nt.len()
        invariant
            i <= nt@.len(),
            out@.len() == i,
            forall|k: int| 0 <= k < i ==> is_raw(#[trigger] out@[k], nt@[k].0@, nt@[k].1@),
        decreases nt@.len() - i,
    {
        out.push(Arg { name: nt[i].0.clone(), c_type: nt[i].1.clone(), processing: ArgProcessing::Default });
        i += 1;
    }
    out
}

/// The arguments grouped (see `grouped`).
fn group_args(v: Vec<Arg>) -> (r: Vec<Arg>)
    ensures
        arg_views(r@) == grouped(v@),
{
    let ghost orig = v@;
    let r = crate::parser::process_types(v);
    assert(arg_views(r@) =~= grouped(orig));
    r
}

/// The view of the bindings built so far.
pub open spec fn bindings_view(ws: Seq<CWrapper>, ms: Seq<Method>, hs: Seq<CHandler>) -> BindingsView {
    (wrapper_views(ws), ms.map_values(|m: Method| method_view(m)), hs.map_values(|h: CHandler| handler_view(h)))
}

/// The fields of a struct item as named, typed texts, when every one is named.
fn named_fields(fields: Vec<(Option<String>, String)>) -> (r: Option<Vec<(String, String)>>)
    ensures
        (exists|k: int| 0 <= k < fields@.len() && (#[trigger] fields@[k]).0 is None) <==> r is None,
        r matches Some(v) ==> v@.map_values(|p: (String, String)| (p.0@, p.1@)) == named_views(fields@).map_values(
            |f: (Option<Seq<char>>, Seq<char>)| (f.0->0, f.1),
        ),
{
    let mut out: Vec<(String, String)> = Vec::new();
    let mut i: usize = 0;
    while i < fields.len()
        invariant
            i <= fields@.len(),
            out@.len() == i,
            forall|k: int| 0 <= k < i ==> (#[trigger] fields@[k]).0 is Some,
            forall|k: int| 0 <= k < i ==> (#[trigger] out@[k]).0@ == fields@[k].0->0@ && out@[k].1@ == fields@[k].1@,
        decreases fields@.len() - i,
    {
        match &fields[i].0 {
            Some(n) => {
                out.push((n.clone(), fields[i].1.clone()));
            },
            None => {
                return None;
            },
        }
        i += 1;
    }
    proof {
        assert(out@.map_values(|p: (String, String)| (p.0@, p.1@)) =~= named_views(fields@).map_values(
            |f: (Option<Seq<char>>, Seq<char>)| (f.0->0, f.1),
        ));
    }
    Some(out)
}

/// Grouped arguments from named, typed texts, with the grouping `raw_args` gives.
fn grouped_from(nt: Vec<(String, String)>) -> (r: Vec<Arg>)
    ensures
        arg_views(r@) == grouped(raw_args(nt@.map_values(|p: (String, String)| (p.0@, p.1@)))),
{
    let ghost views = nt@.map_values(|p: (String, String)| (p.0@, p.1@));
    let raw = raw_arg_vec(nt);
    proof {
        lemma_raw_congruent(raw@, views);
    }
    group_args(raw)
}

/// See `struct_step`.
fn struct_step_exec(ws: &mut Vec<CWrapper>, ms: &Vec<Method>, hs: &Vec<CHandler>, tokens: &str) -> (ok: bool)
    ensures
        match struct_step(bindings_view(old(ws)@, ms@, hs@), tokens@) {
            Some(b) => ok && bindings_view(final(ws)@, ms@, hs@) == b,
            None => !ok,
        },
{
    let (ident, fields, attrs) = match parse_struct_item(tokens) {
        Some(st) => st,
        None => return false,
    };
    let ghost fviews = named_views(fields@);
    let ghost fs = fields@;
    let nt = match named_fields(fields) {
        Some(v) => v,
        None => {
            proof {
                let k = choose|k: int| 0 <= k < fs.len() && (#[trigger] fs[k]).0 is None;
                assert(fviews[k].0 is None);
            }
            return false;
        },
    };
    proof {
        assert forall|k: int| 0 <= k < fviews.len() implies (#[trigger] fviews[k]).0 is Some by {
            assert(fs[k].0 is Some);
        }
    }
    let key = crate::bindings::replace_all_str(ident.as_str(), "_stct", "_t");
    if key.as_str().unicode_len() < 2 {
        return false;
    }
    let docs = match doc_values_exec(&attrs) {
        Some(d) => d,
        None => return false,
    };
    let ghost nv = nt@.map_values(|p: (String, String)| (p.0@, p.1@));
    let g = grouped_from(nt);
    update_wrapper_exec(ws, key.as_str(), &docs, Some(g));
    proof {
        assert(nv == fviews.map_values(|f: (Option<Seq<char>>, Seq<char>)| (f.0->0, f.1)));
        assert(bindings_view(ws@, ms@, hs@).0 == wrapper_views(ws@));
    }
    true
}

/// A callback's arguments as named, typed texts (an unnamed one gets an
/// empty name).
fn callback_names(inputs: Vec<(Option<String>, String)>) -> (r: Vec<(String, String)>)
    ensures
        r@.map_values(|p: (String, String)| (p.0@, p.1@)) == named_views(inputs@).map_values(
            |f: (Option<Seq<char>>, Seq<char>)| (match f.0 {
                Some(n) => n,
                None => Seq::empty(),
            }, f.1),
        ),
{
    let mut out: Vec<(String, String)> = Vec::new();
    let mut i: usize = 0;
    while i < inputs.len()
        invariant
            i <= inputs@.len(),
            out@.len() == i,
            forall|k: int| 0 <= k < i ==> (#[trigger] out@[k]).0@ == (match inputs@[k].0 {
                Some(n) => n@,
                None => Seq::empty(),
            }) && out@[k].1@ == inputs@[k].1@,
        decreases inputs@.len() - i,
    {
        let n = match &inputs[i].0 {
            Some(n) => n.clone(),
            None => String::new(),
        };
        out.push((n, inputs[i].1.clone()));
        i += 1;
    }
    assert(out@.map_values(|p: (String, String)| (p.0@, p.1@)) =~= named_views(inputs@).map_values(
        |f: (Option<Seq<char>>, Seq<char>)| (match f.0 {
            Some(n) => n,
            None => Seq::empty(),
        }, f.1),
    ));
    out
}

/// Adds the texts to a new ordered set (see `set_insert_all`).
fn doc_set(xs: &Vec<String>) -> (r: Vec<String>)
    ensures
        r@.map_values(|t: String| t@) == set_insert_all(Seq::empty(), seq_views(xs@)),
{
    let mut d: Vec<String> = Vec::new();
    assert(d@.map_values(|t: String| t@) =~= Seq::<Seq<char>>::empty());
    doc_insert_all(&mut d, xs);
    d
}

/// See `type_step`.
fn type_step_exec(ws: &mut Vec<CWrapper>, ms: &Vec<Method>, hs: &mut Vec<CHandler>, tokens: &str) -> (ok: bool)
    ensures
        match type_step(bindings_view(old(ws)@, ms@, old(hs)@), tokens@) {
            Some(b) => ok && bindings_view(final(ws)@, ms@, final(hs)@) == b,
            None => !ok,
        },
{
    let (ident, attrs, ty) = match parse_type_item(tokens) {
        Some(t) => t,
        None => return false,
    };
    let docs = match doc_values_exec(&attrs) {
        Some(d) => d,
        None => return false,
    };
    if crate::text::str_contains(tokens, "_stct") {
        if ident.as_str().unicode_len() < 2 {
            return false;
        }
        update_wrapper_exec(ws, ident.as_str(), &docs, None);
        return true;
    }
    proof {
        reveal_strlit("Option");
    }
    let sig = match parse_type_path(ty.as_str()) {
        Some((last, Some(arg))) => if crate::text::str_eq(last.as_str(), "Option") {
            parse_fn_ptr(arg.as_str())
        } else {
            None
        },
        _ => None,
    };
    match sig {
        Some((inputs, output)) => {
            let ghost iv = named_views(inputs@);
            let nt = callback_names(inputs);
            let ghost nv = nt@.map_values(|p: (String, String)| (p.0@, p.1@));
            let raw = raw_arg_vec(nt);
            proof {
                lemma_raw_congruent(raw@, nv);
                assert(raw_args(nv) == callback_args(iv));
            }
            let ds = doc_set(&docs);
            match crate::bindings::handler_from_signature(ident, raw, output.as_str(), ds) {
                Some(h) => {
                    let ghost before = hs@;
                    hs.push(h);
                    proof {
                        assert(h.args@.map_values(|a: Arg| arg_view(a)) =~= grouped(callback_args(iv)));
                        assert(arg_view(h.return_type) == return_view(handler_return_text(output@)));
                        assert(hs@.map_values(|x: CHandler| handler_view(x)) =~= before.map_values(|x: CHandler| handler_view(x)).push(
                            handler_view(h),
                        ));
                    }
                },
                None => {},
            }
        },
        None => {},
    }
    true
}

/// The C type names of the wrappers, in order.
fn wrapper_keys(ws: &Vec<CWrapper>) -> (r: Vec<String>)
    ensures
        crate::bindings::texts(r@) == wrapper_views(ws@).map_values(|w: WrapperView| w.1),
{
    let mut out: Vec<String> = Vec::new();
    let mut i: usize = 0;
    while i < ws.len()
        invariant
            i <= ws@.len(),
            out@.len() == i,
            forall|k: int| 0 <= k < i ==> (#[trigger] out@[k])@ == ws@[k].c_type_name@,
        decreases ws@.len() - i,
    {
        out.push(ws[i].c_type_name.clone());
        i += 1;
    }
    assert(crate::bindings::texts(out@) =~= wrapper_views(ws@).map_values(|w: WrapperView| w.1));
    out
}

/// The arguments of a foreign function from their `name : type` texts, when
/// each has a `:`.
fn split_args(texts: &Vec<String>) -> (r: Option<Vec<Arg>>)
    ensures
        (exists|k: int| 0 <= k < texts@.len() && first_index(#[trigger] seq_views(texts@)[k], ':', 0) is None) <==> r is None,
        r matches Some(v) ==> v@.len() == texts@.len() && forall|i: int| 0 <= i < v@.len() ==> is_raw(#[trigger] v@[i],
            split_arg(seq_views(texts@)[i]).0, split_arg(seq_views(texts@)[i]).1),
{
    let mut out: Vec<Arg> = Vec::new();
    let mut i: usize = 0;
    while i < texts.len()
        invariant
            i <= texts@.len(),
            out@.len() == i,
            forall|k: int| 0 <= k < i ==> first_index(#[trigger] seq_views(texts@)[k], ':', 0) is Some,
            forall|k: int| 0 <= k < i ==> is_raw(#[trigger] out@[k], split_arg(seq_views(texts@)[k]).0, split_arg(seq_views(texts@)[k]).1),
        decreases texts@.len() - i,
    {
        assert(seq_views(texts@)[i as int] == texts@[i as int]@);
        let cs = crate::text::chars_of(texts[i].as_str());
        let mut k: usize = 0;
        while k < cs.len() && cs[k] != ':'
            invariant
                k <= cs@.len(),
                cs@ == texts@[i as int]@,
                first_index(cs@, ':', 0) == first_index(cs@, ':', k as int),
            decreases cs@.len() - k,
        {
            k += 1;
        }
        if k == cs.len() {
            return None;
        }
        out.push(crate::bindings::extract_function_argument(texts[i].as_str()));
        i += 1;
    }
    Some(out)
}

/// See `fn_step`.
fn fn_step_exec(ws: &mut Vec<CWrapper>, ms: &mut Vec<Method>, hs: &Vec<CHandler>, tokens: &str) -> (ok: bool)
    ensures
        match fn_step(bindings_view(old(ws)@, old(ms)@, hs@), tokens@) {
            Some(b) => ok && bindings_view(final(ws)@, final(ms)@, hs@) == b,
            None => !ok,
        },
{
    let (name, arg_texts, output, attrs) = match parse_foreign_fn(tokens) {
        Some(f) => f,
        None => return false,
    };
    let ghost tv = seq_views(arg_texts@);
    let args = match split_args(&arg_texts) {
        Some(a) => a,
        None => return false,
    };
    let docs = match doc_values_exec(&attrs) {
        Some(d) => d,
        None => return false,
    };
    let ghost nv = tv.map_values(|t: Seq<char>| split_arg(t));
    proof {
        lemma_raw_congruent(args@, nv);
    }
    let ret = crate::bindings::extract_return_type(match &output {
        Some(t) => Some(t.as_str()),
        None => None,
    });
    let keys = wrapper_keys(ws);
    let ghost args_before = args@;
    let owner = crate::bindings::method_owner_of(&args, name.as_str(), keys.as_slice());
    let grouped_args = group_args(args);
    let ds = doc_set(&docs);
    let ghost ret_view = return_view(match output {
        Some(t) => t@,
        None => "()"@,
    });
    match owner {
        Some(key) => {
            if key.as_str().unicode_len() == 0 {
                return false;
            }
            proof {
                lemma_owner_known(args_before, name@, crate::bindings::texts(keys@));
                let vs = wrapper_views(ws@);
                if wrapper_at(vs, key@, 0) is None {
                    let j = choose|j: int| 0 <= j < crate::bindings::texts(keys@).len() && crate::bindings::texts(keys@)[j] == key@;
                    lemma_wrapper_at_none(vs, key@, 0, j);
                }
            }
            let i = match wrapper_pos(ws, key.as_str()) {
                Some(i) => i,
                None => return false,
            };
            let smn = crate::bindings::struct_method_name(name.as_str(), key.as_str());
            let m = Method {
                fn_name: name,
                struct_method_name: smn,
                return_type: Arg { name: String::new(), c_type: ret, processing: ArgProcessing::Default },
                arguments: grouped_args,
                docs: ds,
            };
            let ghost ws1 = wrapper_views(ws@);
            let mut w = ws.remove(i);
            let ghost wm = w.methods@;
            w.methods.push(m);
            ws.insert(i, w);
            proof {
                assert(arg_view(m.return_type) == ret_view);
                assert(w.methods@.map_values(|x: Method| method_view(x)) =~= wm.map_values(|x: Method| method_view(x)).push(method_view(m)));
                assert(wrapper_views(ws@) =~= ws1.update(i as int, wrapper_view(w)));
            }
            true
        },
        None => {
            let m = Method {
                fn_name: name,
                struct_method_name: String::new(),
                return_type: Arg { name: String::new(), c_type: ret, processing: ArgProcessing::Default },
                arguments: grouped_args,
                docs: ds,
            };
            let ghost before = ms@;
            ms.push(m);
            proof {
                assert(arg_view(m.return_type) == ret_view);
                assert(ms@.map_values(|x: Method| method_view(x)) =~= before.map_values(|x: Method| method_view(x)).push(method_view(m)));
            }
            true
        },
    }
}

/// The owner of a function is one of the names.
proof fn lemma_owner_known(args: Seq<Arg>, f: Seq<char>, names: Seq<Seq<char>>)
    ensures
        method_owner(args, f, names) matches Some(k) ==> crate::bindings::has_name(names, k),
{
    lemma_first_known(crate::parser::possible_wrappers(f), names);
}

proof fn lemma_first_known(cands: Seq<Seq<char>>, names: Seq<Seq<char>>)
    ensures
        crate::bindings::first_known(cands, names) matches Some(k) ==> crate::bindings::has_name(names, k),
    decreases cands.len(),
{
    if cands.len() > 0 {
        lemma_first_known(cands.drop_first(), names);
    }
}

/// A failed step leaves the rest of an `extern` block failed.
proof fn lemma_fns_step_fail(b: BindingsView, fns: Seq<Option<Seq<char>>>, n: int)
    requires
        0 <= n <= fns.len(),
        fns_step(b, fns.take(n)) is None,
    ensures
        fns_step(b, fns) is None,
    decreases fns.len() - n,
{
    if n < fns.len() {
        assert(fns.take(n + 1).drop_last() =~= fns.take(n));
        lemma_fns_step_fail(b, fns, n + 1);
    } else {
        assert(fns.take(n) =~= fns);
    }
}

/// See `foreign_step`.
fn foreign_step_exec(ws: &mut Vec<CWrapper>, ms: &mut Vec<Method>, hs: &Vec<CHandler>, tokens: &str) -> (ok: bool)
    ensures
        match foreign_step(bindings_view(old(ws)@, old(ms)@, hs@), tokens@) {
            Some(b) => ok && bindings_view(final(ws)@, final(ms)@, hs@) == b,
            None => !ok,
        },
{
    let (abi, fns) = match parse_foreign_mod(tokens) {
        Some(m) => m,
        None => return false,
    };
    let c_abi = match &abi {
        Some(a) => crate::text::str_eq(a.as_str(), "C"),
        None => false,
    };
    proof {
        reveal_strlit("C");
    }
    if !c_abi {
        return true;
    }
    let ghost b0 = bindings_view(ws@, ms@, hs@);
    let ghost fv = opt_views(fns@);
    let mut i: usize = 0;
    assert(fv.take(0) =~= Seq::<Option<Seq<char>>>::empty());
    assert(foreign_step(b0, tokens@) == fns_step(b0, fv));
    while i < fns.len()
        invariant
            i <= fns@.len(),
            fv == opt_views(fns@),
            b0 == bindings_view(old(ws)@, old(ms)@, hs@),
            foreign_step(b0, tokens@) == fns_step(b0, fv),
            fns_step(b0, fv.take(i as int)) == Some(bindings_view(ws@, ms@, hs@)),
        decreases fns@.len() - i,
    {
        proof {
            let t = fv.take(i + 1);
            assert(t.drop_last() =~= fv.take(i as int));
            assert(t.last() == opt_seq(fns@[i as int]));
        }
        let ghost pre = bindings_view(ws@, ms@, hs@);
        match &fns[i] {
            Some(t) => {
                if !fn_step_exec(ws, ms, hs, t.as_str()) {
                    proof {
                        assert(fn_step(pre, t@) is None);
                        assert(fns_step(b0, fv.take(i + 1)) is None);
                        lemma_fns_step_fail(b0, fv, i + 1);
                    }
                    return false;
                }
            },
            None => {},
        }
        i += 1;
    }
    assert(fv.take(fns@.len() as int) =~= fv);
    true
}

/// A failed step leaves the rest of the walk failed.
proof fn lemma_walk_fail(items: Seq<(ItemKind, Seq<char>)>, n: int)
    requires
        0 <= n <= items.len(),
        walk(items.take(n)) is None,
    ensures
        walk(items) is None,
    decreases items.len() - n,
{
    if n < items.len() {
        assert(items.take(n + 1).drop_last() =~= items.take(n));
        lemma_walk_fail(items, n + 1);
    } else {
        assert(items.take(n) =~= items);
    }
}

/// The wrappers the bindings keep (see `bindings_of`).
fn kept_wrappers(ws: Vec<CWrapper>) -> (r: Vec<CWrapper>)
    ensures
        wrapper_views(r@) == wrapper_views(ws@).filter(|w: WrapperView| starts_with_none(w.1, excluded_wrapper_prefixes())),
{
    let ghost vs = wrapper_views(ws@);
    let ghost pred = |w: WrapperView| starts_with_none(w.1, excluded_wrapper_prefixes());
    let mut out: Vec<CWrapper> = Vec::new();
    let mut rest = ws;
    let ghost mut seen: Seq<WrapperView> = Seq::empty();
    while rest.len() > 0
        invariant
            vs == seen + wrapper_views(rest@),
            wrapper_views(out@) == seen.filter(pred),
            pred == (|w: WrapperView| starts_with_none(w.1, excluded_wrapper_prefixes())),
        decreases rest@.len(),
    {
        let ghost r0 = rest@;
        let w = rest.remove(0);
        let keep = crate::bindings::keep_wrapper(w.c_type_name.as_str());
        let ghost wv = wrapper_view(w);
        proof {
            reveal_with_fuel(Seq::<_>::filter, 1);
            assert((seen.push(wv)).drop_last() =~= seen);
            assert(wrapper_views(r0) =~= seq![wv] + wrapper_views(rest@));
        }
        let ghost before = out@;
        if keep {
            out.push(w);
            assert(wrapper_views(out@) =~= wrapper_views(before).push(wv));
        }
        proof {
            seen = seen.push(wv);
        }
        assert(vs =~= seen + wrapper_views(rest@));
    }
    assert(seen =~= vs);
    out
}

/// The callback types the bindings keep (see `bindings_of`).
fn kept_handlers(hs: Vec<CHandler>) -> (r: Vec<CHandler>)
    ensures
        r@.map_values(|h: CHandler| handler_view(h)) == hs@.map_values(|h: CHandler| handler_view(h)).filter(
            |h: HandlerView| starts_with_none(h.0, excluded_handler_prefixes()),
        ),
{
    let ghost vs = hs@.map_values(|h: CHandler| handler_view(h));
    let ghost pred = |h: HandlerView| starts_with_none(h.0, excluded_handler_prefixes());
    let mut out: Vec<CHandler> = Vec::new();
    let mut rest = hs;
    let ghost mut seen: Seq<HandlerView> = Seq::empty();
    while rest.len() > 0
        invariant
            vs == seen + rest@.map_values(|h: CHandler| handler_view(h)),
            out@.map_values(|h: CHandler| handler_view(h)) == seen.filter(pred),
            pred == (|h: HandlerView| starts_with_none(h.0, excluded_handler_prefixes())),
        decreases rest@.len(),
    {
        let ghost r0 = rest@;
        let h = rest.remove(0);
        let keep = crate::bindings::keep_handler(h.c_type_name.as_str());
        let ghost hv = handler_view(h);
        proof {
            reveal_with_fuel(Seq::<_>::filter, 1);
            assert((seen.push(hv)).drop_last() =~= seen);
            assert(r0.map_values(|h: CHandler| handler_view(h)) =~= seq![hv] + rest@.map_values(|h: CHandler| handler_view(h)));
        }
        let ghost before = out@;
        if keep {
            out.push(h);
            assert(out@.map_values(|h: CHandler| handler_view(h)) =~= before.map_values(|h: CHandler| handler_view(h)).push(hv));
        }
        proof {
            seen = seen.push(hv);
        }
        assert(vs =~= seen + rest@.map_values(|h: CHandler| handler_view(h)));
    }
    assert(seen =~= vs);
    out
}

/// The wrappers, methods of no wrapper, and callback types a bindings file
/// declares (see `bindings_of`): the file is parsed with syn and its items
/// walked in order; `None` when it does not parse or an item is one the
/// walk cannot take (a struct with an unnamed field, a function argument
/// without a `:`, a type name too short to drop its `_t`).
pub fn parse_bindings(text: &str) -> (r: Option<(Vec<CWrapper>, Vec<Method>, Vec<CHandler>)>)
    ensures
        match bindings_of(text@) {
            Some(b) => r matches Some(x) && bindings_view(x.0@, x.1@, x.2@) == b,
            None => r is None,
        },
{
    let items = match parse_file_items(text) {
        Some(v) => v,
        None => return None,
    };
    let ghost iv = item_views(items@);
    let mut ws: Vec<CWrapper> = Vec::new();
    let mut ms: Vec<Method> = Vec::new();
    let mut hs: Vec<CHandler> = Vec::new();
    let mut i: usize = 0;
    proof {
        assert(iv.take(0) =~= Seq::<(ItemKind, Seq<char>)>::empty());
        assert(bindings_view(ws@, ms@, hs@) =~= (Seq::<WrapperView>::empty(), Seq::<MethodView>::empty(), Seq::<HandlerView>::empty()));
    }
    while i < items.len()
        invariant
            i <= items@.len(),
            iv == item_views(items@),
            file_items(text@) == Some(iv),
            walk(iv.take(i as int)) == Some(bindings_view(ws@, ms@, hs@)),
        decreases items@.len() - i,
    {
        proof {
            let t = iv.take(i + 1);
            assert(t.drop_last() =~= iv.take(i as int));
            assert(t.last() == (items@[i as int].0, items@[i as int].1@));
        }
        let tokens = items[i].1.as_str();
        let ghost pre = bindings_view(ws@, ms@, hs@);
        let ok = match items[i].0 {
            ItemKind::Struct => struct_step_exec(&mut ws, &ms, &hs, tokens),
            ItemKind::TypeDef => type_step_exec(&mut ws, &ms, &mut hs, tokens),
            ItemKind::ForeignMod => foreign_step_exec(&mut ws, &mut ms, &hs, tokens),
            ItemKind::Other => true,
        };
        if !ok {
            proof {
                assert(item_step(pre, iv[i as int]) is None);
                assert(walk(iv.take(i + 1)) is None);
                lemma_walk_fail(iv, i + 1);
            }
            return None;
        }
        i += 1;
    }
    assert(iv.take(items@.len() as int) =~= iv);
    let kw = kept_wrappers(ws);
    let kh = kept_handlers(hs);
    Some((kw, ms, kh))
}

/// The C type names of the wrappers strictly increase (each occurs once), as
/// in a map keyed by them.
pub open spec fn keys_sorted(ws: Seq<WrapperView>) -> bool {
    forall|i: int, j: int| 0 <= i < j < ws.len() ==> text_less(#[trigger] ws[i].1, #[trigger] ws[j].1)
}

/// Two lists of wrappers have the same C type names, position by position.
pub open spec fn same_keys(a: Seq<WrapperView>, b: Seq<WrapperView>) -> bool {
    a.len() == b.len() && forall|i: int| 0 <= i < a.len() ==> (#[trigger] a[i]).1 == b[i].1
}

proof fn lemma_text_less_irreflexive(a: Seq<char>)
    ensures
        !text_less(a, a),
    decreases a.len(),
{
    if a.len() > 0 {
        lemma_text_less_irreflexive(a.drop_first());
    }
}

proof fn lemma_text_less_total(a: Seq<char>, b: Seq<char>)
    ensures
        a == b || text_less(a, b) || text_less(b, a),
    decreases a.len(),
{
    if a.len() == 0 && b.len() == 0 {
        assert(a =~= b);
    } else if a.len() > 0 && b.len() > 0 && a[0] != b[0] {
        if (a[0] as u32) == (b[0] as u32) {
            vstd::utf8::char_u32_cast(a[0], a[0] as u32);
            vstd::utf8::char_u32_cast(b[0], b[0] as u32);
        }
    } else if a.len() > 0 && b.len() > 0 && a[0] == b[0] {
        lemma_text_less_total(a.drop_first(), b.drop_first());
        if a.drop_first() == b.drop_first() {
            assert(a =~= seq![a[0]] + a.drop_first());
            assert(b =~= seq![b[0]] + b.drop_first());
        }
    }
}

proof fn lemma_text_less_transitive(a: Seq<char>, b: Seq<char>, c: Seq<char>)
    requires
        text_less(a, b),
        text_less(b, c),
    ensures
        text_less(a, c),
    decreases a.len(),
{
    if a.len() > 0 && a[0] == b[0] && b[0] == c[0] {
        lemma_text_less_transitive(a.drop_first(), b.drop_first(), c.drop_first());
    }
}

proof fn lemma_same_keys_sorted(a: Seq<WrapperView>, b: Seq<WrapperView>)
    requires
        keys_sorted(a),
        same_keys(a, b),
    ensures
        keys_sorted(b),
{
    assert forall|i: int, j: int| 0 <= i < j < b.len() implies text_less(#[trigger] b[i].1, #[trigger] b[j].1) by {
        assert(a[i].1 == b[i].1);
        assert(a[j].1 == b[j].1);
    }
}

proof fn lemma_insert_at_before(vs: Seq<WrapperView>, key: Seq<char>, from: int)
    requires
        0 <= from <= vs.len(),
    ensures
        forall|k: int| from <= k < insert_at(vs, key, from) ==> text_less(#[trigger] vs[k].1, key),
        insert_at(vs, key, from) < vs.len() ==> !text_less(vs[insert_at(vs, key, from)].1, key),
    decreases vs.len() - from,
{
    if from < vs.len() && text_less(vs[from].1, key) {
        lemma_insert_at_before(vs, key, from + 1);
    }
}

proof fn lemma_wrapper_at_some(vs: Seq<WrapperView>, key: Seq<char>, from: int)
    ensures
        wrapper_at(vs, key, from) matches Some(i) ==> from <= i < vs.len() && vs[i].1 == key,
    decreases vs.len() - from,
{
    if 0 <= from < vs.len() && vs[from].1 != key {
        lemma_wrapper_at_some(vs, key, from + 1);
    }
}

proof fn lemma_with_wrapper_sorted(vs: Seq<WrapperView>, key: Seq<char>)
    requires
        keys_sorted(vs),
        key.len() >= 2,
    ensures
        keys_sorted(with_wrapper(vs, key)),
        wrapper_at(with_wrapper(vs, key), key, 0) is Some,
{
    if wrapper_at(vs, key, 0) is None {
        let p = insert_at(vs, key, 0);
        lemma_insert_at_bounds(vs, key, 0);
        lemma_insert_at_before(vs, key, 0);
        lemma_wrapper_at_insert(vs, key, p);
        let nv = with_wrapper(vs, key);
        if p < vs.len() {
            lemma_wrapper_at_none(vs, key, 0, p);
            lemma_text_less_total(vs[p].1, key);
        }
        assert forall|i: int, j: int| 0 <= i < j < nv.len() implies text_less(#[trigger] nv[i].1, #[trigger] nv[j].1) by {
            if j < p {
                assert(nv[i] == vs[i] && nv[j] == vs[j]);
            } else if j == p {
                assert(nv[i] == vs[i]);
            } else if i < p {
                assert(nv[i] == vs[i] && nv[j] == vs[j - 1]);
            } else if i == p {
                assert(nv[j] == vs[j - 1]);
                if j - 1 > p {
                    lemma_text_less_transitive(key, vs[p].1, vs[j - 1].1);
                }
            } else {
                assert(nv[i] == vs[i - 1] && nv[j] == vs[j - 1]);
            }
        }
    }
}

proof fn lemma_update_wrapper_sorted(vs: Seq<WrapperView>, key: Seq<char>, docs: Seq<Seq<char>>, fields: Option<Seq<ArgView>>)
    requires
        keys_sorted(vs),
        key.len() >= 2,
    ensures
        keys_sorted(update_wrapper(vs, key, docs, fields)),
{
    lemma_with_wrapper_sorted(vs, key);
    let ws1 = with_wrapper(vs, key);
    lemma_wrapper_at_some(ws1, key, 0);
    let nv = update_wrapper(vs, key, docs, fields);
    assert(same_keys(ws1, nv));
    lemma_same_keys_sorted(ws1, nv);
}

proof fn lemma_fn_step_sorted(b: BindingsView, tokens: Seq<char>)
    requires
        keys_sorted(b.0),
    ensures
        fn_step(b, tokens) matches Some(b2) ==> keys_sorted(b2.0),
{
    match foreign_fn_item(tokens) {
        Some(f) => {
            let raw = raw_args(f.1.map_values(|t: Seq<char>| split_arg(t)));
            let names = b.0.map_values(|w: WrapperView| w.1);
            lemma_owner_known(raw, f.0, names);
            match method_owner(raw, f.0, names) {
                Some(key) => {
                    let k = choose|k: int| 0 <= k < names.len() && names[k] == key;
                    if wrapper_at(b.0, key, 0) is None {
                        lemma_wrapper_at_none(b.0, key, 0, k);
                    }
                    lemma_wrapper_at_some(b.0, key, 0);
                    if fn_step(b, tokens) is Some {
                        let b2 = fn_step(b, tokens)->0;
                        assert(same_keys(b.0, b2.0));
                        lemma_same_keys_sorted(b.0, b2.0);
                    }
                },
                None => {},
            }
        },
        None => {},
    }
}

proof fn lemma_fns_step_sorted(b: BindingsView, fns: Seq<Option<Seq<char>>>)
    requires
        keys_sorted(b.0),
    ensures
        fns_step(b, fns) matches Some(b2) ==> keys_sorted(b2.0),
    decreases fns.len(),
{
    if fns.len() > 0 {
        lemma_fns_step_sorted(b, fns.drop_last());
        match fns_step(b, fns.drop_last()) {
            Some(b1) => match fns.last() {
                Some(t) => lemma_fn_step_sorted(b1, t),
                None => {},
            },
            None => {},
        }
    }
}

proof fn lemma_item_step_sorted(b: BindingsView, item: (ItemKind, Seq<char>))
    requires
        keys_sorted(b.0),
    ensures
        item_step(b, item) matches Some(b2) ==> keys_sorted(b2.0),
{
    match item.0 {
        ItemKind::Struct => {
            match struct_item(item.1) {
                Some(st) => {
                    let key = replace_all(st.0, "_stct"@, "_t"@);
                    if key.len() >= 2 {
                        match doc_values(st.2) {
                            Some(d) => lemma_update_wrapper_sorted(b.0, key, d, Some(grouped(raw_args(
                                st.1.map_values(|f: (Option<Seq<char>>, Seq<char>)| (f.0->0, f.1)),
                            )))),
                            None => {},
                        }
                    }
                },
                None => {},
            }
        },
        ItemKind::TypeDef => {
            match type_item(item.1) {
                Some(ti) => match doc_values(ti.1) {
                    Some(d) => if ti.0.len() >= 2 {
                        lemma_update_wrapper_sorted(b.0, ti.0, d, None);
                    },
                    None => {},
                },
                None => {},
            }
        },
        ItemKind::ForeignMod => {
            match foreign_mod_item(item.1) {
                Some(fm) => lemma_fns_step_sorted(b, fm.1),
                None => {},
            }
        },
        ItemKind::Other => {},
    }
}

proof fn lemma_walk_sorted(items: Seq<(ItemKind, Seq<char>)>)
    ensures
        walk(items) matches Some(b) ==> keys_sorted(b.0),
    decreases items.len(),
{
    if items.len() > 0 {
        lemma_walk_sorted(items.drop_last());
        match walk(items.drop_last()) {
            Some(b) => lemma_item_step_sorted(b, items.last()),
            None => {},
        }
    }
}

proof fn lemma_filter_sorted(vs: Seq<WrapperView>, pred: spec_fn(WrapperView) -> bool)
    requires
        keys_sorted(vs),
    ensures
        keys_sorted(vs.filter(pred)),
    decreases vs.len(),
{
    reveal_with_fuel(Seq::<_>::filter, 1);
    if vs.len() > 0 {
        let rest = vs.drop_last();
        assert forall|i: int, j: int| 0 <= i < j < rest.len() implies text_less(#[trigger] rest[i].1, #[trigger] rest[j].1) by {
            assert(rest[i] == vs[i] && rest[j] == vs[j]);
        }
        lemma_filter_sorted(rest, pred);
        let fr = rest.filter(pred);
        if pred(vs.last()) {
            let nf = fr.push(vs.last());
            assert forall|k: int| 0 <= k < fr.len() implies text_less(#[trigger] fr[k].1, vs.last().1) by {
                assert(fr.contains(fr[k]));
                rest.lemma_filter_contains_rev(pred, fr[k]);
                let m = choose|m: int| 0 <= m < rest.len() && rest[m] == fr[k];
                assert(rest[m] == vs[m]);
            }
            assert forall|i: int, j: int| 0 <= i < j < nf.len() implies text_less(#[trigger] nf[i].1, #[trigger] nf[j].1) by {
                assert(nf[i] == fr[i]);
                if j < fr.len() {
                    assert(nf[j] == fr[j]);
                }
            }
        }
    }
}

/// The wrappers of a bindings file come in strictly increasing order of
/// their C type names, each name once, as in the map keyed by them that
/// the bindings are read into.
pub proof fn lemma_parsed_wrappers_sorted(text: Seq<char>)
    requires
        bindings_of(text) is Some,
    ensures
        keys_sorted((bindings_of(text)->0).0),
{
    let items = file_items(text)->0;
    lemma_walk_sorted(items);
    let b = walk(items)->0;
    lemma_filter_sorted(b.0, |w: WrapperView| starts_with_none(w.1, excluded_wrapper_prefixes()));
}

} // verus!
