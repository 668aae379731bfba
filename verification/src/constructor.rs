use vstd::prelude::*;

use crate::bindings::{last_word, last_word_of, replace_all, replace_all_str};
use crate::generator::{
    close_method_index, join, join_text, methods_named, new_return_type_text, new_type_text,
    processing_kind, processing_members, rs_to_c_needs_pair, rs_to_c_return_text, rs_to_c_text,
    where_clause, where_clause_text, bound_needs_handler, find_wrapper, wrapper_for, Arg,
    ArgProcessing, CWrapper, Method, ProcessingKind,
};
use crate::text::{concat2, concat3, owned, push_str, str_eq};

verus! {

/// The lists of text a constructor is assembled from, one entry per argument.
#[derive(Clone, Copy, PartialEq, Eq, Structural)]
pub enum CtorList {
    /// What the C constructor is called with.
    InitArgs,
    /// What the C destructor is called with.
    CloseArgs,
    /// The statements that convert the arguments before the call.
    Lets,
    /// The parameters of the generated `new`.
    NewArgs,
    /// The struct fields that keep wrapped arguments alive.
    KeptFields,
    /// Those fields set from the kept copies.
    KeptSome,
    /// Those fields set to nothing.
    KeptNone,
    /// The parameters of a `new` built from the struct's fields.
    FieldParams,
    /// The field initialisers of that `new`.
    FieldInits,
    /// The copies of wrapped fields that `new` keeps.
    FieldCopies,
}

/// The pointee of a single mutable pointer argument is a known wrapper.
pub open spec fn is_wrapped_pointer(a: Arg, ws: Seq<CWrapper>) -> bool {
    a.spec_is_mut_pointer() && !a.spec_is_double_mut_pointer() && wrapper_for(ws, last_word(a.c_type@)) is Some
}

/// The entry of argument `a`, at position `idx`, in the list `which`.
pub open spec fn ctor_item_text(which: CtorList, a: Arg, idx: int, ws: Seq<CWrapper>) -> Seq<char> {
    let double = a.spec_is_double_mut_pointer();
    let kind = processing_kind(a.processing);
    match which {
        CtorList::InitArgs => if idx == 0 { "ctx_field"@ } else { a.name@ },
        CtorList::CloseArgs => if idx == 0 {
            if double { "ctx_field"@ } else { "*ctx_field"@ }
        } else {
            a.name@ + ".into()"@
        },
        CtorList::Lets => {
            let copy = if is_wrapped_pointer(a, ws) {
                "let "@ + a.name@ + "_copy = "@ + a.name@ + ".clone(); "@
            } else {
                Seq::empty()
            };
            let value = rs_to_c_return_text(a, a.name@, false);
            if double || kind == ProcessingKind::StringWithLength || kind == ProcessingKind::ByteArrayWithLength
                || value.len() == 0 {
                Seq::empty()
            } else if kind == ProcessingKind::Handler {
                copy + "let ("@ + processing_members(a.processing)[0].0 + ", "@ + processing_members(a.processing)[1].0
                    + ") = ("@ + value + "); "@
            } else {
                copy + "let "@ + a.name@ + ": "@ + a.c_type@ + " = "@ + value + "; "@
            }
        },
        CtorList::NewArgs => {
            let t = new_return_type_text(a, ws, false, true);
            if double || t.len() == 0 { Seq::empty() } else { a.name@ + ": "@ + t }
        },
        CtorList::KeptFields => if !double && is_wrapped_pointer(a, ws) {
            "_"@ + a.name@ + ": Option<"@ + new_return_type_text(a, ws, false, false) + ">,"@
        } else {
            Seq::empty()
        },
        CtorList::KeptSome => if !double && is_wrapped_pointer(a, ws) {
            "_"@ + a.name@ + ": Some("@ + a.name@ + "_copy),"@
        } else {
            Seq::empty()
        },
        CtorList::KeptNone => if !double && is_wrapped_pointer(a, ws) {
            "_"@ + a.name@ + ": None,"@
        } else {
            Seq::empty()
        },
        CtorList::FieldParams => {
            let t = new_return_type_text(a, ws, false, true);
            if t.len() == 0 { Seq::empty() } else { a.name@ + ": "@ + t }
        },
        CtorList::FieldInits => rs_to_c_return_text(a, a.name@, true),
        CtorList::FieldCopies => if !double && kind == ProcessingKind::Default && rs_to_c_return_text(a, a.name@, false).len() > 0
            && is_wrapped_pointer(a, ws) {
            "let "@ + a.name@ + "_copy = "@ + a.name@ + ".clone(); "@
        } else {
            Seq::empty()
        },
    }
}

/// The non-empty entries of the arguments in the list `which`, in order.
pub open spec fn ctor_list_text(which: CtorList, args: Seq<Arg>, ws: Seq<CWrapper>) -> Seq<Seq<char>>
    decreases args.len(),
{
    if args.len() == 0 {
        Seq::empty()
    } else {
        let rest = ctor_list_text(which, args.drop_last(), ws);
        let t = ctor_item_text(which, args.last(), args.len() - 1, ws);
        if t.len() == 0 { rest } else { rest.push(t) }
    }
}

/// The arguments' groupings hold what the constructor reads of them.
pub open spec fn ctor_args_complete(args: Seq<Arg>, ws: Seq<CWrapper>) -> bool {
    &&& forall|k: int| 0 <= k < args.len() ==> rs_to_c_needs_pair(#[trigger] args[k]) ==> processing_members(args[k].processing).len() >= 2
    &&& forall|k: int| 0 <= k < args.len() ==> (processing_kind((#[trigger] args[k]).processing) == ProcessingKind::Handler
        && !args[k].spec_is_double_mut_pointer()) ==> processing_members(args[k].processing).len() >= 2
    &&& forall|k: int| 0 <= k < args.len() ==> bound_needs_handler(#[trigger] args[k]) ==> processing_members(args[k].processing).len() >= 1
}

/// The class whose constructor keeps no copies of its arguments.
pub open spec fn keeps_no_copies(class_name: Seq<char>) -> bool {
    class_name == "AeronAsyncDestination"@
}

/// The kept-argument lists are empty for the class that keeps no copies.
pub open spec fn kept_list_text(which: CtorList, args: Seq<Arg>, ws: Seq<CWrapper>, class_name: Seq<char>) -> Seq<Seq<char>> {
    if keeps_no_copies(class_name) { Seq::empty() } else { ctor_list_text(which, args, ws) }
}

/// Some argument is called `n`.
pub open spec fn has_arg_named(args: Seq<Arg>, n: Seq<char>) -> bool {
    exists|k: int| 0 <= k < args.len() && (#[trigger] args[k]).name@ == n
}

/// The close method of a constructor can be used: it returns a status code,
/// it is another method, and each of its arguments after the first is an
/// argument of the constructor.
pub open spec fn usable_close(w: CWrapper, m: Method) -> Option<Method> {
    match close_method_index(w.methods@, m.fn_name@) {
        Some(i) => {
            let c = w.methods@[i];
            if c.return_type.c_type@ == Arg::C_INT_RETURN_TYPE_STR@ && c.fn_name@ != m.fn_name@ && forall|j: int|
                1 <= j < c.arguments@.len() ==> has_arg_named(m.arguments@, #[trigger] c.arguments@[j].name@) {
                Some(c)
            } else {
                None
            }
        },
        None => None,
    }
}

/// How a resource of the wrapper tells that it is closed: through its single
/// `is_closed` method, if it has one.
pub open spec fn is_closed_text(w: CWrapper) -> Seq<char> {
    let found = methods_named(w.methods@, "is_closed"@);
    if found.len() == 1 {
        "Some(|c| unsafe{"@ + found[0].fn_name@ + "(c)})"@
    } else {
        "None"@
    }
}

/// The name of the generated constructor: `init` and `create` become `new`.
pub open spec fn ctor_name_text(m: Method) -> Seq<char> {
    replace_all(replace_all(m.struct_method_name@, "init"@, "new"@), "create"@, "new"@)
}

/// All entries of a list, one after the other.
pub open spec fn concat_text(parts: Seq<Seq<char>>) -> Seq<char>
    decreases parts.len(),
{
    if parts.len() == 0 { Seq::empty() } else { concat_text(parts.drop_last()) + parts.last() }
}

/// The `new` that a C constructor (a method taking a pointer to a pointer)
/// becomes when it has a usable close method: it converts its arguments,
/// builds a managed resource from the constructor and the close method, and
/// keeps copies of the wrapped arguments it was given. Empty otherwise.
pub open spec fn ctor_method_text(w: CWrapper, m: Method, ws: Seq<CWrapper>) -> Seq<char> {
    match usable_close(w, m) {
        Some(c) => {
            let args = m.arguments@;
            crate::docs::method_docs_text(crate::docs::method_doc_lines_text(
                m.docs@.map_values(|d: String| d@),
                ws,
                Some(ctor_list_text(CtorList::NewArgs, args, ws)),
            )) + "pub fn "@ + ctor_name_text(m) + where_clause_text(args) + "("@ + join_text(ctor_list_text(CtorList::NewArgs, args, ws), ", "@)
                + ") -> Result<Self, AeronCError> { "@ + concat_text(ctor_list_text(CtorList::Lets, args, ws))
                + "let resource_constructor = ManagedCResource::new(move |ctx_field| unsafe { "@ + m.fn_name@ + "("@
                + join_text(ctor_list_text(CtorList::InitArgs, args, ws), ", "@)
                + ") }, Some(Box::new(move |ctx_field| unsafe { "@ + c.fn_name@ + "("@
                + join_text(ctor_list_text(CtorList::CloseArgs, c.arguments@, ws), ", "@) + ")} )), false, "@ + is_closed_text(w)
                + ", )?; Ok(Self { inner: CResource::OwnedOnHeap(std::rc::Rc::new(resource_constructor)), "@
                + concat_text(kept_list_text(CtorList::KeptSome, args, ws, w.class_name@)) + " }) }\n"@
        },
        None => Seq::empty(),
    }
}


/// The constructors of the C struct that make zeroed instances, on the heap
/// (a managed resource) and on the stack.
pub open spec fn zeroed_impl_text(c_type: Seq<char>, is_closed: Seq<char>) -> Seq<char> {
    "#[inline]\n/// creates zeroed struct where the underlying c struct is on the heap\npub fn new_zeroed_on_heap() -> Self { let resource = ManagedCResource::new(move |ctx_field| { #[cfg(feature = \"extra-logging\")] log::info!(\"creating zeroed empty resource on heap {}\", stringify!("@
        + c_type + ")); let inst: "@ + c_type + " = unsafe { std::mem::zeroed() }; let inner_ptr: *mut "@ + c_type
        + " = Box::into_raw(Box::new(inst)); unsafe { *ctx_field = inner_ptr }; 0 }, None, true, "@ + is_closed
        + ").unwrap(); Self { inner: CResource::OwnedOnHeap(std::rc::Rc::new(resource)), } }\n#[inline]\n/// creates zeroed struct where the underlying c struct is on the stack\n/// _(Use with care)_\npub fn new_zeroed_on_stack() -> Self { #[cfg(feature = \"extra-logging\")] log::debug!(\"creating zeroed empty resource on stack {}\", stringify!("@
        + c_type + ")); Self { inner: CResource::OwnedOnStack(std::mem::MaybeUninit::zeroed()), } }\n"@
}

/// The `new` of a struct that the C API gives no constructor for: it takes
/// the struct's fields and builds the struct on the heap.
pub open spec fn fields_new_text(w: CWrapper, ws: Seq<CWrapper>) -> Seq<char> {
    let fs = w.fields@;
    "#[inline]\npub fn new"@ + where_clause_text(fs) + "("@ + join_text(ctor_list_text(CtorList::FieldParams, fs, ws), ", "@)
        + ") -> Result<Self, AeronCError> { "@ + concat_text(ctor_list_text(CtorList::FieldCopies, fs, ws))
        + "let r_constructor = ManagedCResource::new(move |ctx_field| { let inst = "@ + w.c_type_name@ + " { "@
        + join_text(ctor_list_text(CtorList::FieldInits, fs, ws), ", "@) + " }; let inner_ptr: *mut "@ + w.c_type_name@
        + " = Box::into_raw(Box::new(inst)); unsafe { *ctx_field = inner_ptr }; 0 }, None, true, "@ + is_closed_text(w)
        + ")?; Ok(Self { inner: CResource::OwnedOnHeap(std::rc::Rc::new(r_constructor)), }) }\n"@
}

/// The `new` of each C constructor among the methods, in order.
pub open spec fn ctor_texts(w: CWrapper, ms: Seq<Method>, ws: Seq<CWrapper>) -> Seq<Seq<char>>
    decreases ms.len(),
{
    if ms.len() == 0 {
        Seq::empty()
    } else if !crate::generator::is_bindable_method(ms.last()) {
        ctor_texts(w, ms.drop_last(), ws).push(ctor_method_text(w, ms.last(), ws))
    } else {
        ctor_texts(w, ms.drop_last(), ws)
    }
}

/// The last C constructor among the methods with a usable close method.
pub open spec fn last_usable_ctor(w: CWrapper, ms: Seq<Method>) -> Option<int>
    decreases ms.len(),
{
    if ms.len() == 0 {
        None
    } else if !crate::generator::is_bindable_method(ms.last()) && usable_close(w, ms.last()) is Some {
        Some(ms.len() - 1)
    } else {
        last_usable_ctor(w, ms.drop_last())
    }
}

/// The constructors of a wrapper class: the `new` of each C constructor when
/// any has a usable close method; otherwise the zeroed constructors, after a
/// `new` from the fields when the wrapper gets a default constructor.
pub open spec fn constructors_text(w: CWrapper, ws: Seq<CWrapper>) -> Seq<Seq<char>> {
    let cs = ctor_texts(w, w.methods@, ws);
    if forall|i: int| 0 <= i < cs.len() ==> (#[trigger] cs[i]).len() == 0 {
        let z = zeroed_impl_text(w.c_type_name@, is_closed_text(w));
        if crate::generator::spec_has_default_method(w) {
            seq![fields_new_text(w, ws) + z]
        } else {
            seq![z]
        }
    } else {
        cs
    }
}

/// The struct fields (or, with `which` `KeptNone`, their empty values) that
/// keep the wrapped arguments of the last usable C constructor alive.
pub open spec fn kept_fields_text(which: CtorList, w: CWrapper, ws: Seq<CWrapper>) -> Seq<Seq<char>> {
    match last_usable_ctor(w, w.methods@) {
        Some(i) => kept_list_text(which, w.methods@[i].arguments@, ws, w.class_name@),
        None => Seq::empty(),
    }
}

/// Every C constructor's arguments and the fields hold what is read of them.
pub open spec fn constructors_complete(w: CWrapper, ws: Seq<CWrapper>) -> bool {
    &&& forall|k: int| 0 <= k < w.methods@.len() ==> ctor_args_complete((#[trigger] w.methods@[k]).arguments@, ws)
    &&& ctor_args_complete(w.fields@, ws)
}

/// See `ctor_item_text`.
fn ctor_item(which: CtorList, a: &Arg, idx: usize, ws: &[CWrapper]) -> (r: String)
    requires
        (which == CtorList::FieldInits || which == CtorList::FieldCopies) ==> (rs_to_c_needs_pair(*a)
            ==> processing_members(a.processing).len() >= 2),
        which == CtorList::Lets ==> (rs_to_c_needs_pair(*a) ==> processing_members(a.processing).len() >= 2),
        which == CtorList::Lets ==> ((processing_kind(a.processing) == ProcessingKind::Handler && !a.spec_is_double_mut_pointer())
            ==> processing_members(a.processing).len() >= 2),
    ensures
        r@ == ctor_item_text(which, *a, idx as int, ws@),
{
    let double = a.is_double_mut_pointer();
    match which {
        CtorList::InitArgs => if idx == 0 { owned("ctx_field") } else { a.name.clone() },
        CtorList::CloseArgs => if idx == 0 {
            if double { owned("ctx_field") } else { owned("*ctx_field") }
        } else {
            concat2(a.name.as_str(), ".into()")
        },
        CtorList::Lets => {
            if double {
                return String::new();
            }
            let wrapped = wrapped_pointer(a, ws);
            let value = rs_to_c_text(a, a.name.as_str(), false);
            let mut out = String::new();
            match &a.processing {
                ArgProcessing::StringWithLength(_) => {
                    return String::new();
                },
                ArgProcessing::ByteArrayWithLength(_) => {
                    return String::new();
                },
                ArgProcessing::Handler(hc) => {
                    if value.as_str().unicode_len() == 0 {
                        return String::new();
                    }
                    if wrapped {
                        push_copy(&mut out, a.name.as_str());
                    }
                    push_str(&mut out, "let (");
                    push_str(&mut out, hc[0].name.as_str());
                    push_str(&mut out, ", ");
                    push_str(&mut out, hc[1].name.as_str());
                    push_str(&mut out, ") = (");
                    push_str(&mut out, value.as_str());
                    push_str(&mut out, "); ");
                },
                ArgProcessing::Default => {
                    if value.as_str().unicode_len() == 0 {
                        return String::new();
                    }
                    if wrapped {
                        push_copy(&mut out, a.name.as_str());
                    }
                    push_str(&mut out, "let ");
                    push_str(&mut out, a.name.as_str());
                    push_str(&mut out, ": ");
                    push_str(&mut out, a.c_type.as_str());
                    push_str(&mut out, " = ");
                    push_str(&mut out, value.as_str());
                    push_str(&mut out, "; ");
                },
            }
            assert(out@ =~= ctor_item_text(which, *a, idx as int, ws@));
            out
        },
        CtorList::NewArgs => {
            let t = new_type_text(a, ws, false, true);
            if double || t.as_str().unicode_len() == 0 {
                String::new()
            } else {
                concat3(a.name.as_str(), ": ", t.as_str())
            }
        },
        CtorList::KeptFields => {
            if !double && wrapped_pointer(a, ws) {
                let t = new_type_text(a, ws, false, false);
                let mut out = String::new();
                push_str(&mut out, "_");
                push_str(&mut out, a.name.as_str());
                push_str(&mut out, ": Option<");
                push_str(&mut out, t.as_str());
                push_str(&mut out, ">,");
                assert(out@ =~= ctor_item_text(which, *a, idx as int, ws@));
                out
            } else {
                String::new()
            }
        },
        CtorList::KeptSome => {
            if !double && wrapped_pointer(a, ws) {
                let mut out = String::new();
                push_str(&mut out, "_");
                push_str(&mut out, a.name.as_str());
                push_str(&mut out, ": Some(");
                push_str(&mut out, a.name.as_str());
                push_str(&mut out, "_copy),");
                assert(out@ =~= ctor_item_text(which, *a, idx as int, ws@));
                out
            } else {
                String::new()
            }
        },
        CtorList::KeptNone => {
            if !double && wrapped_pointer(a, ws) {
                concat3("_", a.name.as_str(), ": None,")
            } else {
                String::new()
            }
        },
        CtorList::FieldParams => {
            let t = new_type_text(a, ws, false, true);
            if t.as_str().unicode_len() == 0 {
                String::new()
            } else {
                concat3(a.name.as_str(), ": ", t.as_str())
            }
        },
        CtorList::FieldInits => rs_to_c_text(a, a.name.as_str(), true),
        CtorList::FieldCopies => {
            let default = match &a.processing {
                ArgProcessing::Default => true,
                _ => false,
            };
            if !double && default && rs_to_c_text(a, a.name.as_str(), false).as_str().unicode_len() > 0
                && wrapped_pointer(a, ws) {
                let mut out = String::new();
                push_copy(&mut out, a.name.as_str());
                assert(out@ =~= ctor_item_text(which, *a, idx as int, ws@));
                out
            } else {
                String::new()
            }
        },
    }
}

/// Appends the statement that keeps a copy of a wrapped argument.
fn push_copy(out: &mut String, name: &str)
    ensures
        final(out)@ == old(out)@ + ("let "@ + name@ + "_copy = "@ + name@ + ".clone(); "@),
{
    let ghost before = out@;
    push_str(out, "let ");
    push_str(out, name);
    push_str(out, "_copy = ");
    push_str(out, name);
    push_str(out, ".clone(); ");
    assert(out@ =~= before + ("let "@ + name@ + "_copy = "@ + name@ + ".clone(); "@));
}

/// See `is_wrapped_pointer`.
fn wrapped_pointer(a: &Arg, ws: &[CWrapper]) -> (r: bool)
    ensures
        r == is_wrapped_pointer(*a, ws@),
{
    if !a.is_single_mut_pointer() {
        return false;
    }
    let key = last_word_of(a.c_type.as_str());
    find_wrapper(ws, key.as_str()).is_some()
}

/// See `ctor_list_text`.
fn ctor_list(which: CtorList, args: &Vec<Arg>, ws: &[CWrapper]) -> (r: Vec<String>)
    requires
        (which == CtorList::Lets || which == CtorList::FieldInits || which == CtorList::FieldCopies) ==> ctor_args_complete(args@, ws@),
    ensures
        r@.map_values(|p: String| p@) == ctor_list_text(which, args@, ws@),
{
    let mut out: Vec<String> = Vec::new();
    let mut i: usize = 0;
    while i < args.len()
        invariant
            i <= args@.len(),
            (which == CtorList::Lets || which == CtorList::FieldInits || which == CtorList::FieldCopies) ==> ctor_args_complete(args@, ws@),
            out@.map_values(|p: String| p@) == ctor_list_text(which, args@.take(i as int), ws@),
        decreases args@.len() - i,
    {
        let ghost before = out@;
        let t = ctor_item(which, &args[i], i, ws);
        if t.as_str().unicode_len() > 0 {
            out.push(t);
        }
        proof {
            let tk = args@.take(i + 1);
            assert(tk.drop_last() =~= args@.take(i as int));
            assert(tk.last() == args@[i as int]);
            assert(out@.map_values(|p: String| p@) =~= if ctor_item_text(which, args@[i as int], i as int, ws@).len() == 0 {
                before.map_values(|p: String| p@)
            } else {
                before.map_values(|p: String| p@).push(ctor_item_text(which, args@[i as int], i as int, ws@))
            });
        }
        i += 1;
    }
    assert(args@.take(args@.len() as int) =~= args@);
    out
}

/// See `concat_text`.
pub(crate) fn concat_all(parts: &Vec<String>) -> (r: String)
    ensures
        r@ == concat_text(parts@.map_values(|p: String| p@)),
{
    let ghost views = parts@.map_values(|p: String| p@);
    let mut out = String::new();
    let mut i: usize = 0;
    while i < parts.len()
        invariant
            i <= parts@.len(),
            views == parts@.map_values(|p: String| p@),
            out@ == concat_text(views.take(i as int)),
        decreases parts@.len() - i,
    {
        push_str(&mut out, parts[i].as_str());
        proof {
            let t = views.take(i + 1);
            assert(t.drop_last() =~= views.take(i as int));
            assert(t.last() == parts@[i as int]@);
        }
        i += 1;
    }
    assert(views.take(parts@.len() as int) =~= views);
    out
}

/// The kept-argument list of a class (see `kept_list_text`).
fn kept_list(which: CtorList, args: &Vec<Arg>, ws: &[CWrapper], class_name: &str) -> (r: Vec<String>)
    requires
        which == CtorList::KeptFields || which == CtorList::KeptSome || which == CtorList::KeptNone,
    ensures
        r@.map_values(|p: String| p@) == kept_list_text(which, args@, ws@, class_name@),
{
    if str_eq(class_name, "AeronAsyncDestination") {
        let out: Vec<String> = Vec::new();
        assert(out@.map_values(|p: String| p@) =~= Seq::<Seq<char>>::empty());
        out
    } else {
        ctor_list(which, args, ws)
    }
}

impl CWrapper {
    /// The close method of constructor `m` when it can be used (see `usable_close`).
    #[verifier::loop_isolation(false)]
    pub fn usable_close_method(&self, m: &Method) -> (r: Option<&Method>)
        ensures
            match usable_close(*self, *m) {
                Some(c) => r matches Some(x) && *x == c,
                None => r is None,
            },
    {
        let c = match self.find_close_method(m) {
            Some(c) => c,
            None => return None,
        };
        if !c.return_type.is_c_raw_int() || str_eq(c.fn_name.as_str(), m.fn_name.as_str()) {
            return None;
        }
        let mut j: usize = 1;
        while j < c.arguments.len()
            invariant
                1 <= j,
                forall|jj: int| 1 <= jj < j && jj < c.arguments@.len() ==> has_arg_named(m.arguments@, #[trigger] c.arguments@[jj].name@),
            decreases c.arguments@.len() - j,
        {
            let mut found = false;
            let mut k: usize = 0;
            while k < m.arguments.len()
                invariant
                    j < c.arguments@.len(),
                    k <= m.arguments@.len(),
                    found ==> has_arg_named(m.arguments@, c.arguments@[j as int].name@),
                    !found ==> forall|kk: int| 0 <= kk < k ==> #[trigger] m.arguments@[kk].name@ != c.arguments@[j as int].name@,
                decreases m.arguments@.len() - k,
            {
                if !found && str_eq(m.arguments[k].name.as_str(), c.arguments[j].name.as_str()) {
                    found = true;
                    assert(m.arguments@[k as int].name@ == c.arguments@[j as int].name@);
                }
                k += 1;
            }
            if !found {
                assert(!has_arg_named(m.arguments@, c.arguments@[j as int].name@));
                return None;
            }
            j += 1;
        }
        Some(c)
    }

    /// See `is_closed_text`.
    fn is_closed_code(&self) -> (r: String)
        ensures
            r@ == is_closed_text(*self),
    {
        proof {
            reveal_strlit("is_closed");
        }
        match self.find_unique_method("is_closed") {
            Some(m) => {
                let mut out = String::new();
                push_str(&mut out, "Some(|c| unsafe{");
                push_str(&mut out, m.fn_name.as_str());
                push_str(&mut out, "(c)})");
                assert(out@ =~= is_closed_text(*self));
                out
            },
            None => owned("None"),
        }
    }

    /// The `new` of constructor `method` (see `ctor_method_text`).
    pub fn generate_constructor_method(&self, method: &Method, wrappers: &[CWrapper]) -> (r: String)
        requires
            ctor_args_complete(method.arguments@, wrappers@),
        ensures
            r@ == ctor_method_text(*self, *method, wrappers@),
    {
        let c = match self.usable_close_method(method) {
            Some(c) => c,
            None => return String::new(),
        };
        let args = &method.arguments;
        let name = replace_all_str(replace_all_str(method.struct_method_name.as_str(), "init", "new").as_str(), "create", "new");
        let w = where_clause(args);
        let new_arg_list = ctor_list(CtorList::NewArgs, args, wrappers);
        let docs = crate::docs::method_docs(&crate::docs::method_doc_lines(method.docs.as_slice(), wrappers, Some(new_arg_list.as_slice())));
        let new_args = join(&new_arg_list, ", ");
        let lets = concat_all(&ctor_list(CtorList::Lets, args, wrappers));
        let init_args = join(&ctor_list(CtorList::InitArgs, args, wrappers), ", ");
        let close_args = join(&ctor_list(CtorList::CloseArgs, &c.arguments, wrappers), ", ");
        let is_closed = self.is_closed_code();
        let kept = concat_all(&kept_list(CtorList::KeptSome, args, wrappers, self.class_name.as_str()));
        let mut out = String::new();
        push_str(&mut out, docs.as_str());
        push_str(&mut out, "pub fn ");
        push_str(&mut out, name.as_str());
        push_str(&mut out, w.as_str());
        push_str(&mut out, "(");
        push_str(&mut out, new_args.as_str());
        push_str(&mut out, ") -> Result<Self, AeronCError> { ");
        push_str(&mut out, lets.as_str());
        push_str(&mut out, "let resource_constructor = ManagedCResource::new(move |ctx_field| unsafe { ");
        push_str(&mut out, method.fn_name.as_str());
        push_str(&mut out, "(");
        push_str(&mut out, init_args.as_str());
        push_str(&mut out, ") }, Some(Box::new(move |ctx_field| unsafe { ");
        push_str(&mut out, c.fn_name.as_str());
        push_str(&mut out, "(");
        push_str(&mut out, close_args.as_str());
        push_str(&mut out, ")} )), false, ");
        push_str(&mut out, is_closed.as_str());
        push_str(&mut out, ", )?; Ok(Self { inner: CResource::OwnedOnHeap(std::rc::Rc::new(resource_constructor)), ");
        push_str(&mut out, kept.as_str());
        push_str(&mut out, " }) }\n");
        assert(out@ =~= ctor_method_text(*self, *method, wrappers@));
        out
    }
}

/// See `zeroed_impl_text`.
fn zeroed_impl(c_type: &str, is_closed: &str) -> (r: String)
    ensures
        r@ == zeroed_impl_text(c_type@, is_closed@),
{
    let mut out = String::new();
    push_str(&mut out, "#[inline]\n/// creates zeroed struct where the underlying c struct is on the heap\npub fn new_zeroed_on_heap() -> Self { let resource = ManagedCResource::new(move |ctx_field| { #[cfg(feature = \"extra-logging\")] log::info!(\"creating zeroed empty resource on heap {}\", stringify!(");
    push_str(&mut out, c_type);
    push_str(&mut out, ")); let inst: ");
    push_str(&mut out, c_type);
    push_str(&mut out, " = unsafe { std::mem::zeroed() }; let inner_ptr: *mut ");
    push_str(&mut out, c_type);
    push_str(&mut out, " = Box::into_raw(Box::new(inst)); unsafe { *ctx_field = inner_ptr }; 0 }, None, true, ");
    push_str(&mut out, is_closed);
    push_str(&mut out, ").unwrap(); Self { inner: CResource::OwnedOnHeap(std::rc::Rc::new(resource)), } }\n#[inline]\n/// creates zeroed struct where the underlying c struct is on the stack\n/// _(Use with care)_\npub fn new_zeroed_on_stack() -> Self { #[cfg(feature = \"extra-logging\")] log::debug!(\"creating zeroed empty resource on stack {}\", stringify!(");
    push_str(&mut out, c_type);
    push_str(&mut out, ")); Self { inner: CResource::OwnedOnStack(std::mem::MaybeUninit::zeroed()), } }\n");
    assert(out@ =~= zeroed_impl_text(c_type@, is_closed@));
    out
}

impl CWrapper {
    /// See `fields_new_text`.
    fn fields_new(&self, wrappers: &[CWrapper]) -> (r: String)
        requires
            ctor_args_complete(self.fields@, wrappers@),
        ensures
            r@ == fields_new_text(*self, wrappers@),
    {
        let fs = &self.fields;
        let w = where_clause(fs);
        let params = join(&ctor_list(CtorList::FieldParams, fs, wrappers), ", ");
        let copies = concat_all(&ctor_list(CtorList::FieldCopies, fs, wrappers));
        let inits = join(&ctor_list(CtorList::FieldInits, fs, wrappers), ", ");
        let is_closed = self.is_closed_code();
        let tn = self.c_type_name.as_str();
        let mut out = String::new();
        push_str(&mut out, "#[inline]\npub fn new");
        push_str(&mut out, w.as_str());
        push_str(&mut out, "(");
        push_str(&mut out, params.as_str());
        push_str(&mut out, ") -> Result<Self, AeronCError> { ");
        push_str(&mut out, copies.as_str());
        push_str(&mut out, "let r_constructor = ManagedCResource::new(move |ctx_field| { let inst = ");
        push_str(&mut out, tn);
        push_str(&mut out, " { ");
        push_str(&mut out, inits.as_str());
        push_str(&mut out, " }; let inner_ptr: *mut ");
        push_str(&mut out, tn);
        push_str(&mut out, " = Box::into_raw(Box::new(inst)); unsafe { *ctx_field = inner_ptr }; 0 }, None, true, ");
        push_str(&mut out, is_closed.as_str());
        push_str(&mut out, ")?; Ok(Self { inner: CResource::OwnedOnHeap(std::rc::Rc::new(r_constructor)), }) }\n");
        assert(out@ =~= fields_new_text(*self, wrappers@));
        out
    }

    /// The constructors of this wrapper's class, with the struct fields that
    /// keep the wrapped arguments of its last usable C constructor and their
    /// empty values (see `constructors_text` and `kept_fields_text`).
    pub fn generate_constructor(&self, wrappers: &[CWrapper]) -> (r: (Vec<String>, Vec<String>, Vec<String>))
        requires
            constructors_complete(*self, wrappers@),
        ensures
            r.0@.map_values(|p: String| p@) == constructors_text(*self, wrappers@),
            r.1@.map_values(|p: String| p@) == kept_fields_text(CtorList::KeptFields, *self, wrappers@),
            r.2@.map_values(|p: String| p@) == kept_fields_text(CtorList::KeptNone, *self, wrappers@),
    {
        let mut texts: Vec<String> = Vec::new();
        let mut all_empty = true;
        let mut last: Option<usize> = None;
        let mut i: usize = 0;
        while i < self.methods.len()
            invariant
                i <= self.methods@.len(),
                constructors_complete(*self, wrappers@),
                texts@.map_values(|p: String| p@) == ctor_texts(*self, self.methods@.take(i as int), wrappers@),
                all_empty == forall|k: int| 0 <= k < texts@.len() ==> (#[trigger] texts@[k])@.len() == 0,
                last is None <==> last_usable_ctor(*self, self.methods@.take(i as int)) is None,
                last matches Some(k) ==> last_usable_ctor(*self, self.methods@.take(i as int)) == Some(k as int),
                last matches Some(k) ==> k < i,
            decreases self.methods@.len() - i,
        {
            let m = &self.methods[i];
            let ghost before = texts@;
            let ghost was_empty = all_empty;
            let mut is_ctor = false;
            let mut j: usize = 0;
            while j < m.arguments.len()
                invariant
                    j <= m.arguments@.len(),
                    is_ctor == exists|k: int| 0 <= k < j && (#[trigger] m.arguments@[k]).spec_is_double_mut_pointer(),
                decreases m.arguments@.len() - j,
            {
                if m.arguments[j].is_double_mut_pointer() {
                    is_ctor = true;
                }
                j += 1;
            }
            proof {
                if is_ctor {
                    let k = choose|k: int| 0 <= k < j && (#[trigger] m.arguments@[k]).spec_is_double_mut_pointer();
                    assert(!crate::generator::is_bindable_method(*m));
                } else {
                    assert(crate::generator::is_bindable_method(*m));
                }
                assert(ctor_args_complete(self.methods@[i as int].arguments@, wrappers@));
                let t = self.methods@.take(i + 1);
                assert(t.drop_last() =~= self.methods@.take(i as int));
                assert(t.last() == self.methods@[i as int]);
            }
            if is_ctor {
                let text = self.generate_constructor_method(m, wrappers);
                if text.as_str().unicode_len() > 0 {
                    all_empty = false;
                }
                if self.usable_close_method(m).is_some() {
                    last = Some(i);
                }
                let ghost tv = text@;
                texts.push(text);
                proof {
                    assert(texts@.map_values(|p: String| p@) =~= before.map_values(|p: String| p@).push(
                        ctor_method_text(*self, *m, wrappers@),
                    ));
                    assert(forall|k: int| 0 <= k < before.len() ==> texts@[k] == before[k]);
                    assert(texts@[before.len() as int]@ == tv);
                    if all_empty {
                        assert forall|k: int| 0 <= k < texts@.len() implies (#[trigger] texts@[k])@.len() == 0 by {
                            if k < before.len() {
                                assert(texts@[k] == before[k]);
                            }
                        }
                    } else {
                        if was_empty {
                            assert(texts@[before.len() as int]@.len() != 0);
                        } else {
                            let k = choose|k: int| 0 <= k < before.len() && !((#[trigger] before[k])@.len() == 0);
                            assert(texts@[k] == before[k]);
                        }
                    }
                }
            }
            i += 1;
        }
        proof {
            assert(self.methods@.take(self.methods@.len() as int) =~= self.methods@);
        }
        let (kept, kept_none) = match last {
            Some(k) => (
                kept_list(CtorList::KeptFields, &self.methods[k].arguments, wrappers, self.class_name.as_str()),
                kept_list(CtorList::KeptNone, &self.methods[k].arguments, wrappers, self.class_name.as_str()),
            ),
            None => {
                let a: Vec<String> = Vec::new();
                let b: Vec<String> = Vec::new();
                assert(a@.map_values(|p: String| p@) =~= Seq::<Seq<char>>::empty());
                assert(b@.map_values(|p: String| p@) =~= Seq::<Seq<char>>::empty());
                (a, b)
            },
        };
        if all_empty {
            let is_closed = self.is_closed_code();
            let z = zeroed_impl(self.c_type_name.as_str(), is_closed.as_str());
            let mut out: Vec<String> = Vec::new();
            if self.has_default_method() {
                let mut first = self.fields_new(wrappers);
                push_str(&mut first, z.as_str());
                out.push(first);
            } else {
                out.push(z);
            }
            proof {
                let cs = ctor_texts(*self, self.methods@, wrappers@);
                assert forall|k: int| 0 <= k < cs.len() implies (#[trigger] cs[k]).len() == 0 by {
                    assert(cs[k] == texts@.map_values(|p: String| p@)[k]);
                }
            }
            assert(out@.map_values(|p: String| p@) =~= constructors_text(*self, wrappers@));
            (out, kept, kept_none)
        } else {
            proof {
                let cs = ctor_texts(*self, self.methods@, wrappers@);
                let k = choose|k: int| 0 <= k < texts@.len() && !((#[trigger] texts@[k])@.len() == 0);
                assert(cs[k] == texts@.map_values(|p: String| p@)[k]);
            }
            (texts, kept, kept_none)
        }
    }
}

} // verus!
