use vstd::prelude::*;

use crate::bindings::{last_word, last_word_of, replace_all, replace_all_str, CHandler};
use crate::once::{handlers_complete, once_method_text};
use crate::docs::{method_doc_lines_text, method_docs_text, out_param_doc_lines};
use crate::parser::{pascal_case, snake_to_pascal_case};
use crate::text::{
    concat2, concat3, owned, push_str, seq_contains_seq, seq_ends_with, seq_starts_with, str_contains,
    str_ends_with, str_eq, str_starts_with,
};

verus! {

/// How an argument of a C function is grouped with its neighbour.
#[derive(Debug, Eq, PartialEq)]
pub enum ArgProcessing {
    /// A callback and its `clientd` pointer.
    Handler(Vec<Arg>),
    /// A C string and its length.
    StringWithLength(Vec<Arg>),
    /// A byte array and its length.
    ByteArrayWithLength(Vec<Arg>),
    Default,
}

/// A named argument (or field, or return value) with its Rust type text.
#[derive(Debug, Eq, PartialEq)]
pub struct Arg {
    pub name: String,
    pub c_type: String,
    pub processing: ArgProcessing,
}

/// The grouping kinds, without their payload.
#[derive(Debug, Clone, Copy, PartialEq, Eq, Structural)]
pub enum ProcessingKind {
    Handler,
    StringWithLength,
    ByteArrayWithLength,
    Default,
}

/// The name and type text of one argument.
pub open spec fn arg_name_type(a: Arg) -> (Seq<char>, Seq<char>) {
    (a.name@, a.c_type@)
}

/// The kind of a grouping.
pub open spec fn processing_kind(p: ArgProcessing) -> ProcessingKind {
    match p {
        ArgProcessing::Handler(_) => ProcessingKind::Handler,
        ArgProcessing::StringWithLength(_) => ProcessingKind::StringWithLength,
        ArgProcessing::ByteArrayWithLength(_) => ProcessingKind::ByteArrayWithLength,
        ArgProcessing::Default => ProcessingKind::Default,
    }
}

/// The names and types of the arguments a grouping holds.
pub open spec fn processing_members(p: ArgProcessing) -> Seq<(Seq<char>, Seq<char>)> {
    match p {
        ArgProcessing::Handler(v) => v@.map_values(|a: Arg| arg_name_type(a)),
        ArgProcessing::StringWithLength(v) => v@.map_values(|a: Arg| arg_name_type(a)),
        ArgProcessing::ByteArrayWithLength(v) => v@.map_values(|a: Arg| arg_name_type(a)),
        ArgProcessing::Default => Seq::empty(),
    }
}

/// Two arguments agree on name, type, grouping kind and grouped members.
pub open spec fn arg_same(a: Arg, b: Arg) -> bool {
    &&& a.name@ == b.name@
    &&& a.c_type@ == b.c_type@
    &&& processing_kind(a.processing) == processing_kind(b.processing)
    &&& processing_members(a.processing) == processing_members(b.processing)
}

impl Clone for ArgProcessing {
    fn clone(&self) -> (r: Self)
        ensures
            processing_kind(r) == processing_kind(*self),
            processing_members(r) == processing_members(*self),
    {
        clone_processing(self)
    }
}

impl Clone for Arg {
    fn clone(&self) -> (r: Self)
        ensures
            arg_same(r, *self),
    {
        clone_arg(self)
    }
}

fn clone_arg(a: &Arg) -> (r: Arg)
    ensures
        arg_same(r, *a),
    decreases a,
{
    Arg { name: a.name.clone(), c_type: a.c_type.clone(), processing: clone_processing(&a.processing) }
}

fn clone_processing(p: &ArgProcessing) -> (r: ArgProcessing)
    ensures
        processing_kind(r) == processing_kind(*p),
        processing_members(r) == processing_members(*p),
    decreases p,
{
    match p {
        ArgProcessing::Handler(v) => ArgProcessing::Handler(clone_args(v)),
        ArgProcessing::StringWithLength(v) => ArgProcessing::StringWithLength(clone_args(v)),
        ArgProcessing::ByteArrayWithLength(v) => ArgProcessing::ByteArrayWithLength(clone_args(v)),
        ArgProcessing::Default => ArgProcessing::Default,
    }
}

pub(crate) fn clone_args(v: &Vec<Arg>) -> (r: Vec<Arg>)
    ensures
        r@.map_values(|a: Arg| arg_name_type(a)) == v@.map_values(|a: Arg| arg_name_type(a)),
    decreases v,
{
    let mut out: Vec<Arg> = Vec::new();
    let mut i: usize = 0;
    while i < v.len()
        invariant
            i <= v@.len(),
            out@.len() == i,
            forall|k: int| 0 <= k < i ==> arg_same(#[trigger] out@[k], v@[k]),
        decreases v@.len() - i,
    {
        assert(decreases_to!(v => v@[i as int]));
        out.push(clone_arg(&v[i]));
        i += 1;
    }
    assert(out@.map_values(|a: Arg| arg_name_type(a)) =~= v@.map_values(|a: Arg| arg_name_type(a)));
    out
}


/// The type suffixes that mark a primitive Rust type.
pub open spec fn primitive_suffixes() -> Seq<Seq<char>> {
    seq![
        "i64"@,
        "u64"@,
        "f32"@,
        "f64"@,
        "i32"@,
        "i16"@,
        "u32"@,
        "u16"@,
        "bool"@,
        "usize"@,
        "isize"@,
    ]
}

impl Arg {
    pub const C_INT_RETURN_TYPE_STR: &'static str = ":: std :: os :: raw :: c_int";
    pub const C_CHAR_STR: &'static str = "* const :: std :: os :: raw :: c_char";
    pub const C_MUT_CHAR_STR: &'static str = "* mut :: std :: os :: raw :: c_char";
    pub const C_BYTE_ARRAY: &'static str = "* const u8";
    pub const C_BYTE_MUT_ARRAY: &'static str = "* mut u8";
    pub const STAR_MUT: &'static str = "* mut";
    pub const DOUBLE_STAR_MUT: &'static str = "* mut * mut";
    pub const C_VOID: &'static str = "* mut :: std :: os :: raw :: c_void";

    /// The type ends with the name of a primitive type.
    pub open spec fn spec_is_primitive(self) -> bool {
        exists|k: int| 0 <= k < primitive_suffixes().len() && seq_ends_with(self.c_type@, #[trigger] primitive_suffixes()[k])
    }

    /// The type is a mutable pointer.
    pub open spec fn spec_is_mut_pointer(self) -> bool {
        seq_starts_with(self.c_type@, Self::STAR_MUT@)
    }

    /// The type is a mutable pointer to a mutable pointer.
    pub open spec fn spec_is_double_mut_pointer(self) -> bool {
        seq_starts_with(self.c_type@, Self::DOUBLE_STAR_MUT@)
    }

    /// The type is a `*const c_char`.
    pub open spec fn spec_is_c_string(self) -> bool {
        self.c_type@ == Self::C_CHAR_STR@
    }

    /// The type is a `*mut c_char`.
    pub open spec fn spec_is_mut_c_string(self) -> bool {
        self.c_type@ == Self::C_MUT_CHAR_STR@
    }

    /// The type is a `u8` pointer of either mutability.
    pub open spec fn spec_is_byte_array(self) -> bool {
        self.c_type@ == Self::C_BYTE_ARRAY@ || self.c_type@ == Self::C_BYTE_MUT_ARRAY@
    }

    /// The type is a `*mut c_void`.
    pub open spec fn spec_is_c_void(self) -> bool {
        self.c_type@ == Self::C_VOID@
    }

    /// Whether the type is (or ends with) a primitive numeric or boolean type.
    pub fn is_primitive(&self) -> (r: bool)
        ensures
            r == self.spec_is_primitive(),
    {
        let t = self.c_type.as_str();
        let r = str_ends_with(t, "i64") ||
            str_ends_with(t, "u64") ||
            str_ends_with(t, "f32") ||
            str_ends_with(t, "f64") ||
            str_ends_with(t, "i32") ||
            str_ends_with(t, "i16") ||
            str_ends_with(t, "u32") ||
            str_ends_with(t, "u16") ||
            str_ends_with(t, "bool") ||
            str_ends_with(t, "usize") ||
            str_ends_with(t, "isize");
        proof {
            let ps = primitive_suffixes();
            if r {
                assert(exists|k: int| 0 <= k < ps.len() && seq_ends_with(self.c_type@, #[trigger] ps[k]));
            } else {
                assert forall|k: int| 0 <= k < ps.len() implies !seq_ends_with(self.c_type@, #[trigger] ps[k]) by {
                    assert(ps[k] == ps[k]);
                }
            }
        }
        r
    }

    /// Whether the type is a raw pointer.
    pub fn is_any_pointer(&self) -> (r: bool)
        ensures
            r == (seq_starts_with(self.c_type@, "* const"@) || seq_starts_with(self.c_type@, "* mut"@)),
    {
        str_starts_with(self.c_type.as_str(), "* const") || str_starts_with(self.c_type.as_str(), "* mut")
    }

    /// Whether the type is a `*const c_char`.
    pub fn is_c_string(&self) -> (r: bool)
        ensures
            r == self.spec_is_c_string(),
    {
        str_eq(self.c_type.as_str(), Self::C_CHAR_STR)
    }

    /// Whether the type is a C string of either mutability.
    pub fn is_c_string_any(&self) -> (r: bool)
        ensures
            r == (self.spec_is_c_string() || self.spec_is_mut_c_string()),
    {
        self.is_c_string() || self.is_mut_c_string()
    }

    /// Whether the type is a `*mut c_char`.
    pub fn is_mut_c_string(&self) -> (r: bool)
        ensures
            r == self.spec_is_mut_c_string(),
    {
        str_eq(self.c_type.as_str(), Self::C_MUT_CHAR_STR)
    }

    /// Whether the type is `usize`.
    pub fn is_usize(&self) -> (r: bool)
        ensures
            r == (self.c_type@ == "usize"@),
    {
        str_eq(self.c_type.as_str(), "usize")
    }

    /// Whether the type is a `u8` pointer of either mutability.
    pub fn is_byte_array(&self) -> (r: bool)
        ensures
            r == self.spec_is_byte_array(),
    {
        str_eq(self.c_type.as_str(), Self::C_BYTE_ARRAY) || str_eq(
            self.c_type.as_str(),
            Self::C_BYTE_MUT_ARRAY,
        )
    }

    /// Whether the type is a `*mut u8`.
    pub fn is_mut_byte_array(&self) -> (r: bool)
        ensures
            r == (self.c_type@ == Self::C_BYTE_MUT_ARRAY@),
    {
        str_eq(self.c_type.as_str(), Self::C_BYTE_MUT_ARRAY)
    }

    /// Whether the type is the C `int` returned as a status code.
    pub fn is_c_raw_int(&self) -> (r: bool)
        ensures
            r == (self.c_type@ == Self::C_INT_RETURN_TYPE_STR@),
    {
        str_eq(self.c_type.as_str(), Self::C_INT_RETURN_TYPE_STR)
    }

    /// Whether the type is a mutable pointer.
    pub fn is_mut_pointer(&self) -> (r: bool)
        ensures
            r == self.spec_is_mut_pointer(),
    {
        str_starts_with(self.c_type.as_str(), Self::STAR_MUT)
    }

    /// Whether the type is a mutable pointer to a mutable pointer.
    pub fn is_double_mut_pointer(&self) -> (r: bool)
        ensures
            r == self.spec_is_double_mut_pointer(),
    {
        str_starts_with(self.c_type.as_str(), Self::DOUBLE_STAR_MUT)
    }

    /// Whether the type is a mutable pointer but not a pointer to one.
    pub fn is_single_mut_pointer(&self) -> (r: bool)
        ensures
            r == (self.spec_is_mut_pointer() && !self.spec_is_double_mut_pointer()),
    {
        self.is_mut_pointer() && !self.is_double_mut_pointer()
    }

    /// Whether the type is a `*mut c_void` (a `clientd` pointer).
    pub fn is_c_void(&self) -> (r: bool)
        ensures
            r == self.spec_is_c_void(),
    {
        str_eq(self.c_type.as_str(), Self::C_VOID)
    }
}


/// A C function bound to a wrapper (or free), with its Rust-side argument view.
#[derive(Debug, Eq, PartialEq)]
pub struct Method {
    pub fn_name: String,
    pub struct_method_name: String,
    pub return_type: Arg,
    pub arguments: Vec<Arg>,
    pub docs: Vec<String>,
}

/// Two methods agree on names, return value, arguments and docs.
pub open spec fn method_same(a: Method, b: Method) -> bool {
    &&& a.fn_name@ == b.fn_name@
    &&& a.struct_method_name@ == b.struct_method_name@
    &&& arg_same(a.return_type, b.return_type)
    &&& a.arguments@.map_values(|x: Arg| arg_name_type(x)) == b.arguments@.map_values(
        |x: Arg| arg_name_type(x),
    )
    &&& a.docs@ == b.docs@
}

impl Clone for Method {
    fn clone(&self) -> (r: Self)
        ensures
            method_same(r, *self),
    {
        Method {
            fn_name: self.fn_name.clone(),
            struct_method_name: self.struct_method_name.clone(),
            return_type: self.return_type.clone(),
            arguments: clone_args(&self.arguments),
            docs: self.docs.clone(),
        }
    }
}

/// A C struct type and the Rust class that wraps it.
#[derive(Debug, Default, Eq, PartialEq)]
pub struct CWrapper {
    pub class_name: String,
    pub c_type_name: String,
    pub without_name: String,
    pub fields: Vec<Arg>,
    pub methods: Vec<Method>,
    pub docs: Vec<String>,
}

/// The methods of a wrapper whose method name is `name`, in order.
pub open spec fn methods_named(methods: Seq<Method>, name: Seq<char>) -> Seq<Method> {
    methods.filter(|m: Method| m.struct_method_name@ == name)
}

impl CWrapper {
    /// Copies of the methods called `name`, in declaration order.
    pub fn find_methods(&self, name: &str) -> (r: Vec<Method>)
        ensures
            r@.len() == methods_named(self.methods@, name@).len(),
            forall|k: int|
                0 <= k < r@.len() ==> method_same(#[trigger] r@[k], methods_named(self.methods@, name@)[k]),
    {
        let ghost pred = |m: Method| m.struct_method_name@ == name@;
        let mut out: Vec<Method> = Vec::new();
        let mut i: usize = 0;
        while i < self.methods.len()
            invariant
                i <= self.methods@.len(),
                pred == (|m: Method| m.struct_method_name@ == name@),
                out@.len() == self.methods@.take(i as int).filter(pred).len(),
                forall|k: int|
                    0 <= k < out@.len() ==> method_same(#[trigger] out@[k], self.methods@.take(i as int).filter(pred)[k]),
            decreases self.methods@.len() - i,
        {
            let ghost prev = self.methods@.take(i as int);
            let ghost next = self.methods@.take(i + 1);
            assert(next.drop_last() =~= prev);
            reveal_with_fuel(Seq::<_>::filter, 1);
            if str_eq(self.methods[i].struct_method_name.as_str(), name) {
                out.push(self.methods[i].clone());
            }
            i += 1;
        }
        assert(self.methods@.take(self.methods@.len() as int) =~= self.methods@);
        out
    }

    /// The single method called `name`, or `None` when there is none or more than one.
    pub fn find_unique_method(&self, name: &str) -> (r: Option<Method>)
        ensures
            methods_named(self.methods@, name@).len() == 1 <==> r is Some,
            r matches Some(m) ==> method_same(m, methods_named(self.methods@, name@)[0]),
    {
        let mut results = self.find_methods(name);
        if results.len() == 1 {
            results.pop()
        } else {
            None
        }
    }
}

/// The name of the function that closes what `fn_name` made, trying the given
/// suffix for a `_create` constructor: `_init` becomes `_close`, `_create`
/// becomes the suffix and `_add_` becomes `_remove_`.
pub open spec fn close_name(fn_name: Seq<char>, delete_suffix: Seq<char>) -> Seq<char> {
    replace_all(
        replace_all(replace_all(fn_name, "_init"@, "_close"@), "_create"@, delete_suffix),
        "_add_"@,
        "_remove_"@,
    )
}

/// A function name that makes something: it contains `_init`, `_create` or `_add`.
pub open spec fn is_constructor_name(n: Seq<char>) -> bool {
    seq_contains_seq(n, "_init"@) || seq_contains_seq(n, "_create"@) || seq_contains_seq(n, "_add"@)
}

/// The first method (from `from`) whose function name occurs within `target`.
pub open spec fn first_method_within(methods: Seq<Method>, target: Seq<char>, from: int) -> Option<int>
    decreases methods.len() - from,
{
    if from < 0 || from >= methods.len() {
        None
    } else if seq_contains_seq(target, methods[from].fn_name@) {
        Some(from)
    } else {
        first_method_within(methods, target, from + 1)
    }
}

/// The close method of a constructor: for a constructor name, the first
/// method named within its `_destroy` close name, else within its `_delete`
/// one.
pub open spec fn close_method_index(methods: Seq<Method>, fn_name: Seq<char>) -> Option<int> {
    if !is_constructor_name(fn_name) {
        None
    } else {
        match first_method_within(methods, close_name(fn_name, "_destroy"@), 0) {
            Some(i) => Some(i),
            None => first_method_within(methods, close_name(fn_name, "_delete"@), 0),
        }
    }
}

/// An argument that marks its method as an initialiser: a pointer to a
/// pointer, or a single pointer of an `_init_` function.
pub open spec fn init_like_arg(m: Method, a: Arg) -> bool {
    a.spec_is_double_mut_pointer() || (a.spec_is_mut_pointer() && !a.spec_is_double_mut_pointer()
        && seq_contains_seq(m.fn_name@, "_init_"@))
}

/// A wrapper gets a default constructor when none of its methods is an
/// initialiser, no field is private (named with a leading `_`) and it has fields.
pub open spec fn spec_has_default_method(w: CWrapper) -> bool {
    &&& !exists|i: int, j: int|
        0 <= i < w.methods@.len() && 0 <= j < w.methods@[i].arguments@.len() && #[trigger] init_like_arg(
            w.methods@[i],
            w.methods@[i].arguments@[j],
        )
    &&& !exists|k: int| 0 <= k < w.fields@.len() && seq_starts_with(#[trigger] w.fields@[k].name@, "_"@)
    &&& w.fields@.len() > 0
}

impl CWrapper {
    /// The method that closes what `method` makes, if `method` is a
    /// constructor and such a method exists.
    pub fn find_close_method(&self, method: &Method) -> (r: Option<&Method>)
        ensures
            match close_method_index(self.methods@, method.fn_name@) {
                Some(i) => r matches Some(m) && *m == self.methods@[i],
                None => r is None,
            },
    {
        let f = method.fn_name.as_str();
        if !(str_contains(f, "_init") || str_contains(f, "_create") || str_contains(f, "_add")) {
            return None;
        }
        let step = crate::bindings::replace_all_str(f, "_init", "_close");
        let destroy = crate::bindings::replace_all_str(
            crate::bindings::replace_all_str(step.as_str(), "_create", "_destroy").as_str(),
            "_add_",
            "_remove_",
        );
        match self.first_method_within(destroy.as_str()) {
            Some(i) => Some(&self.methods[i]),
            None => {
                let delete = crate::bindings::replace_all_str(
                    crate::bindings::replace_all_str(step.as_str(), "_create", "_delete").as_str(),
                    "_add_",
                    "_remove_",
                );
                match self.first_method_within(delete.as_str()) {
                    Some(i) => Some(&self.methods[i]),
                    None => None,
                }
            },
        }
    }

    /// The index of the first method whose function name occurs within `target`.
    fn first_method_within(&self, target: &str) -> (r: Option<usize>)
        ensures
            match first_method_within(self.methods@, target@, 0) {
                Some(i) => r matches Some(j) && j == i,
                None => r is None,
            },
            r matches Some(i) ==> i < self.methods@.len(),
    {
        let mut i: usize = 0;
        while i < self.methods.len()
            invariant
                i <= self.methods@.len(),
                first_method_within(self.methods@, target@, 0) == first_method_within(
                    self.methods@,
                    target@,
                    i as int,
                ),
            decreases self.methods@.len() - i,
        {
            if str_contains(target, self.methods[i].fn_name.as_str()) {
                return Some(i);
            }
            i += 1;
        }
        None
    }

    /// Whether the wrapper gets a default constructor.
    pub fn has_default_method(&self) -> (r: bool)
        ensures
            r == spec_has_default_method(*self),
    {
        let mut i: usize = 0;
        while i < self.methods.len()
            invariant
                i <= self.methods@.len(),
                forall|a: int, b: int|
                    0 <= a < i && 0 <= b < self.methods@[a].arguments@.len() ==> !#[trigger] init_like_arg(
                        self.methods@[a],
                        self.methods@[a].arguments@[b],
                    ),
            decreases self.methods@.len() - i,
        {
            let m = &self.methods[i];
            let init_fn = str_contains(m.fn_name.as_str(), "_init_");
            let mut j: usize = 0;
            while j < m.arguments.len()
                invariant
                    i < self.methods@.len(),
                    *m == self.methods@[i as int],
                    init_fn == seq_contains_seq(m.fn_name@, "_init_"@),
                    j <= m.arguments@.len(),
                    forall|b: int| 0 <= b < j ==> !#[trigger] init_like_arg(*m, m.arguments@[b]),
                decreases m.arguments@.len() - j,
            {
                let a = &m.arguments[j];
                if a.is_double_mut_pointer() || (a.is_single_mut_pointer() && init_fn) {
                    assert(init_like_arg(self.methods@[i as int], self.methods@[i as int].arguments@[j as int]));
                    return false;
                }
                j += 1;
            }
            i += 1;
        }
        let mut k: usize = 0;
        while k < self.fields.len()
            invariant
                k <= self.fields@.len(),
                forall|a: int| 0 <= a < k ==> !seq_starts_with(#[trigger] self.fields@[a].name@, "_"@),
            decreases self.fields@.len() - k,
        {
            if str_starts_with(self.fields[k].name.as_str(), "_") {
                return false;
            }
            k += 1;
        }
        self.fields.len() > 0
    }
}

/// The first wrapper, from index `from` on, registered for the C type `key`.
pub open spec fn wrapper_from(ws: Seq<CWrapper>, key: Seq<char>, from: int) -> Option<int>
    decreases ws.len() - from,
{
    if from < 0 || from >= ws.len() {
        None
    } else if ws[from].c_type_name@ == key {
        Some(from)
    } else {
        wrapper_from(ws, key, from + 1)
    }
}

/// The wrapper registered for the C type `key`, if any.
pub open spec fn wrapper_for(ws: Seq<CWrapper>, key: Seq<char>) -> Option<int> {
    wrapper_from(ws, key, 0)
}

/// The index of the wrapper registered for the C type `key`.
pub fn find_wrapper(ws: &[CWrapper], key: &str) -> (r: Option<usize>)
    ensures
        match wrapper_for(ws@, key@) {
            Some(i) => r matches Some(j) && j == i,
            None => r is None,
        },
        r matches Some(i) ==> i < ws@.len(),
{
    let mut i: usize = 0;
    while i < ws.len()
        invariant
            i <= ws@.len(),
            wrapper_for(ws@, key@) == wrapper_from(ws@, key@, i as int),
        decreases ws@.len() - i,
    {
        if str_eq(ws[i].c_type_name.as_str(), key) {
            return Some(i);
        }
        i += 1;
    }
    None
}

/// The name of the handler type a callback argument of C type `c_type` takes.
pub open spec fn handler_impl_name(c_type: Seq<char>) -> Seq<char> {
    pascal_case(c_type) + "HandlerImpl"@
}

/// The Rust type of a binding type, before its grouping is considered: a
/// wrapper class (by reference if asked) for a pointer to a wrapped struct or
/// for the wrapped struct itself, a `Result` for a status code when errors are
/// converted, a string for a C string, a `&mut` for a pointer to a primitive,
/// else the binding type unchanged.
pub open spec fn plain_type_text(a: Arg, ws: Seq<CWrapper>, convert_errors: bool, use_ref_for_cwrapper: bool) -> Seq<char> {
    let single = a.spec_is_mut_pointer() && !a.spec_is_double_mut_pointer();
    if single && wrapper_for(ws, last_word(a.c_type@)) is Some {
        let w = ws[wrapper_for(ws, last_word(a.c_type@))->0];
        if use_ref_for_cwrapper {
            "&"@ + w.class_name@
        } else {
            w.class_name@
        }
    } else if wrapper_for(ws, a.c_type@) is Some {
        ws[wrapper_for(ws, a.c_type@)->0].class_name@
    } else if convert_errors && a.c_type@ == Arg::C_INT_RETURN_TYPE_STR@ {
        "Result<i32, AeronCError>"@
    } else if a.spec_is_c_string() {
        if !convert_errors && use_ref_for_cwrapper {
            "&std::ffi::CStr"@
        } else {
            "&str"@
        }
    } else if single && a.spec_is_primitive() {
        replace_all(a.c_type@, "* mut "@, "&mut "@)
    } else {
        a.c_type@
    }
}

/// The Rust type text that stands for a binding type in generated code (empty
/// where the argument is folded into its neighbour): a callback becomes an
/// optional handler reference, a C string with its length a `&str`, a byte
/// array with its length a slice; otherwise `plain_type_text`.
pub open spec fn new_return_type_text(a: Arg, ws: Seq<CWrapper>, convert_errors: bool, use_ref_for_cwrapper: bool) -> Seq<char> {
    let kind = processing_kind(a.processing);
    let named = a.name@.len() > 0;
    if named && kind == ProcessingKind::Handler {
        if !a.spec_is_mut_pointer() {
            "Option<&Handler<"@ + handler_impl_name(a.c_type@) + ">>"@
        } else {
            Seq::empty()
        }
    } else if named && kind == ProcessingKind::StringWithLength && a.spec_is_c_string() {
        "&str"@
    } else if named && kind == ProcessingKind::StringWithLength && !a.spec_is_mut_c_string() {
        Seq::empty()
    } else if named && kind == ProcessingKind::ByteArrayWithLength {
        if a.c_type@ == Arg::C_BYTE_MUT_ARRAY@ {
            "&mut [u8]"@
        } else if a.spec_is_byte_array() {
            "&[u8]"@
        } else {
            Seq::empty()
        }
    } else {
        plain_type_text(a, ws, convert_errors, use_ref_for_cwrapper)
    }
}

/// The Rust type text of a binding type (see `new_return_type_text`).
pub fn new_type_text(a: &Arg, ws: &[CWrapper], convert_errors: bool, use_ref_for_cwrapper: bool) -> (r: String)
    ensures
        r@ == new_return_type_text(*a, ws@, convert_errors, use_ref_for_cwrapper),
{
    let named = a.name.as_str().unicode_len() > 0;
    proof {
        broadcast use vstd::string::group_string_axioms;
    }
    assert(named == (a.name@.len() > 0));
    match &a.processing {
        ArgProcessing::Handler(_) => {
            if named {
                if !a.is_mut_pointer() {
                    let p = snake_to_pascal_case(a.c_type.as_str());
                    let mut out = String::new();
                    push_str(&mut out, "Option<&Handler<");
                    push_str(&mut out, p.as_str());
                    push_str(&mut out, "HandlerImpl");
                    push_str(&mut out, ">>");
                    assert(out@ =~= "Option<&Handler<"@ + handler_impl_name(a.c_type@) + ">>"@);
                    return out;
                } else {
                    return String::new();
                }
            }
        },
        ArgProcessing::StringWithLength(_) => {
            if named {
                if a.is_c_string() {
                    return owned("&str");
                } else if !a.is_mut_c_string() {
                    return String::new();
                }
            }
        },
        ArgProcessing::ByteArrayWithLength(_) => {
            if named {
                if a.is_mut_byte_array() {
                    return owned("&mut [u8]");
                } else if a.is_byte_array() {
                    return owned("&[u8]");
                } else {
                    return String::new();
                }
            }
        },
        ArgProcessing::Default => {},
    }
    plain_type(a, ws, convert_errors, use_ref_for_cwrapper)
}

fn plain_type(a: &Arg, ws: &[CWrapper], convert_errors: bool, use_ref_for_cwrapper: bool) -> (r: String)
    ensures
        r@ == plain_type_text(*a, ws@, convert_errors, use_ref_for_cwrapper),
{
    let single = a.is_single_mut_pointer();
    if single {
        let last = last_word_of(a.c_type.as_str());
        if let Some(i) = find_wrapper(ws, last.as_str()) {
            if use_ref_for_cwrapper {
                return concat2("&", ws[i].class_name.as_str());
            } else {
                return ws[i].class_name.clone();
            }
        }
    }
    if let Some(i) = find_wrapper(ws, a.c_type.as_str()) {
        return ws[i].class_name.clone();
    }
    if convert_errors && a.is_c_raw_int() {
        return owned("Result<i32, AeronCError>");
    }
    if a.is_c_string() {
        if !convert_errors && use_ref_for_cwrapper {
            return owned("&std::ffi::CStr");
        } else {
            return owned("&str");
        }
    }
    if single && a.is_primitive() {
        return replace_all_str(a.c_type.as_str(), "* mut ", "&mut ");
    }
    a.c_type.clone()
}

/// The name of the `i`-th argument that a grouping folds in.
pub open spec fn member_name(a: Arg, i: int) -> Seq<char> {
    processing_members(a.processing)[i].0
}

/// The type of the `i`-th argument that a grouping folds in.
pub open spec fn member_type(a: Arg, i: int) -> Seq<char> {
    processing_members(a.processing)[i].1
}

/// The C function pointer for an optional handler: the trampoline of the
/// callback type when a handler is given, else none.
pub open spec fn callback_expr(handler: Seq<char>, callback_type: Seq<char>, impl_name: Seq<char>) -> Seq<char> {
    "{ let callback: "@ + callback_type + " = if "@ + handler + ".is_none() { None } else { Some("@
        + callback_type + "_callback::<"@ + impl_name + ">) }; callback }"@
}

/// The `clientd` pointer for an optional handler: the handler's raw pointer, or null.
pub open spec fn clientd_expr(handler: Seq<char>) -> Seq<char> {
    handler + ".map(|m| m.as_raw()).unwrap_or_else(|| std::ptr::null_mut())"@
}

/// A pointer and length taken from a slice, with the pointer cast as `cast`.
pub open spec fn slice_parts_text(array: Seq<char>, length: Seq<char>, cast: Seq<char>, include_field_name: bool) -> Seq<char> {
    if include_field_name {
        array + ": "@ + array + ".as_ptr() as "@ + cast + ", "@ + length + ": "@ + array + ".len()"@
    } else {
        array + ".as_ptr() as "@ + cast + ", "@ + array + ".len()"@
    }
}

/// A grouping whose conversion to C reads two folded-in arguments.
pub open spec fn rs_to_c_needs_pair(a: Arg) -> bool {
    let kind = processing_kind(a.processing);
    ||| kind == ProcessingKind::Handler && !a.spec_is_mut_pointer()
    ||| kind == ProcessingKind::StringWithLength && !a.spec_is_c_string()
    ||| kind == ProcessingKind::ByteArrayWithLength && !a.spec_is_byte_array()
}

/// The expression text that hands the Rust value `result` of a generated
/// method's argument to the C function (as `name: value` when
/// `include_field_name`): a handler becomes its callback and `clientd`, a
/// slice its pointer and length, a C string its pointer, a pointer to a
/// primitive a cast, anything else `into()`.
pub open spec fn rs_to_c_return_text(a: Arg, result: Seq<char>, include_field_name: bool) -> Seq<char> {
    let kind = processing_kind(a.processing);
    let single_primitive = a.spec_is_mut_pointer() && !a.spec_is_double_mut_pointer() && a.spec_is_primitive();
    if kind == ProcessingKind::Handler {
        if !a.spec_is_mut_pointer() {
            let h = member_name(a, 0);
            let cb = callback_expr(h, member_type(a, 0), handler_impl_name(a.c_type@));
            if include_field_name {
                h + ": "@ + cb + ", "@ + member_name(a, 1) + ": "@ + clientd_expr(h)
            } else {
                cb + ", "@ + clientd_expr(h)
            }
        } else {
            Seq::empty()
        }
    } else if kind == ProcessingKind::StringWithLength {
        if !a.spec_is_c_string() {
            slice_parts_text(member_name(a, 0), member_name(a, 1), "*const _"@, include_field_name)
        } else {
            Seq::empty()
        }
    } else if kind == ProcessingKind::ByteArrayWithLength {
        if !a.spec_is_byte_array() {
            slice_parts_text(member_name(a, 0), member_name(a, 1), "*mut _"@, include_field_name)
        } else {
            Seq::empty()
        }
    } else if include_field_name {
        if a.spec_is_c_string() {
            a.name@ + ": "@ + result + ".as_ptr()"@
        } else if single_primitive {
            a.name@ + ": "@ + result + " as *mut _"@
        } else {
            a.name@ + ": "@ + result + ".into()"@
        }
    } else if single_primitive {
        result + " as *mut _"@
    } else if a.spec_is_c_string() {
        result + ".as_ptr()"@
    } else {
        result + ".into()"@
    }
}

/// The slice of a C pointer and length (`self.` fields when `use_self`).
pub open spec fn c_slice_text(star: Seq<char>, length: Seq<char>, me: Seq<char>, mutable: bool) -> Seq<char> {
    if mutable {
        "unsafe { if "@ + me + star + ".is_null() { &mut [] as &mut [_] } else { std::slice::from_raw_parts_mut("@ + me + star + ", "@ + me + length + ".try_into().unwrap()) } }"@
    } else {
        "if "@ + me + star + ".is_null() { &[] as &[_] } else { std::slice::from_raw_parts("@ + me + star + ", "@ + me + length + ") }"@
    }
}

/// A grouping whose conversion from C reads two folded-in arguments.
pub open spec fn c_to_rs_needs_pair(a: Arg) -> bool {
    let kind = processing_kind(a.processing);
    ||| kind == ProcessingKind::ByteArrayWithLength && a.spec_is_byte_array()
    ||| kind == ProcessingKind::StringWithLength && a.spec_is_c_string()
}

/// The expression text that turns the C value `result` into the Rust value
/// of a generated method: a pointer and length into a slice, a status code
/// into a `Result` when errors are converted, a C string into a `&str`, a
/// pointer to a primitive into a `&mut`, anything else `into()`.
pub open spec fn c_to_rs_return_text(a: Arg, result: Seq<char>, convert_errors: bool, use_self: bool) -> Seq<char> {
    let kind = processing_kind(a.processing);
    if kind == ProcessingKind::StringWithLength && !(a.spec_is_c_string() || a.spec_is_mut_c_string()) {
        Seq::empty()
    } else if kind == ProcessingKind::ByteArrayWithLength {
        if !a.spec_is_byte_array() {
            Seq::empty()
        } else {
            c_slice_text(member_name(a, 0), member_name(a, 1), if use_self { "self."@ } else { Seq::empty() }, a.c_type@ == Arg::C_BYTE_MUT_ARRAY@)
        }
    } else if convert_errors && a.c_type@ == Arg::C_INT_RETURN_TYPE_STR@ {
        "if result < 0 { return Err(AeronCError::from_code(result)); } else { return Ok(result) }"@
    } else if a.spec_is_c_string() {
        if kind == ProcessingKind::StringWithLength {
            "if "@ + result + ".is_null() { \"\" } else { std::str::from_utf8_unchecked(std::slice::from_raw_parts("@ + result + " as *const u8, "@ + member_name(a, 1) + ".try_into().unwrap())) }"@
        } else {
            "if "@ + result + ".is_null() { \"\" } else { unsafe { std::ffi::CStr::from_ptr("@ + result + ").to_str().unwrap() } }"@
        }
    } else if a.spec_is_mut_pointer() && !a.spec_is_double_mut_pointer() && a.spec_is_primitive() {
        "unsafe { &mut *"@ + result + " }"@
    } else {
        result + ".into()"@
    }
}

/// The text of an optional string.
pub open spec fn opt_text(o: Option<String>) -> Option<Seq<char>> {
    match o {
        Some(t) => Some(t@),
        None => None,
    }
}

/// The type parameter bound a handler argument adds to its method: its
/// handler type must implement the callback trait.
pub open spec fn handler_bound_text(a: Arg) -> Option<Seq<char>> {
    if processing_kind(a.processing) == ProcessingKind::Handler && !a.spec_is_mut_pointer() {
        let p = pascal_case(member_type(a, 0));
        Some(p + "HandlerImpl: "@ + p + "Callback"@)
    } else {
        None
    }
}

/// The type parameter a handler argument adds to its method.
pub open spec fn handler_param_text(a: Arg) -> Option<Seq<char>> {
    if processing_kind(a.processing) == ProcessingKind::Handler && !a.spec_is_mut_pointer() {
        Some(pascal_case(member_type(a, 0)) + "HandlerImpl"@)
    } else {
        None
    }
}

/// A handler grouping that names its handler type in a bound.
pub open spec fn bound_needs_handler(a: Arg) -> bool {
    processing_kind(a.processing) == ProcessingKind::Handler && !a.spec_is_mut_pointer()
}

/// The C type under which the pointee of an argument may be wrapped: the
/// last word of a single mutable pointer type, else a name no wrapper has.
pub open spec fn wrapper_key(a: Arg) -> Seq<char> {
    if a.spec_is_mut_pointer() && !a.spec_is_double_mut_pointer() {
        last_word(a.c_type@)
    } else {
        "notfound"@
    }
}

/// The parameter (`name: Type`) a generated method of the wrapper of C type
/// `self_type` declares for an argument: none for the wrapper itself (it is
/// `self`) or for an argument folded into its neighbour.
pub open spec fn fn_argument_text(self_type: Seq<char>, a: Arg, ws: Seq<CWrapper>) -> Option<Seq<char>> {
    let w = wrapper_for(ws, wrapper_key(a));
    if w is Some && ws[w->0].c_type_name@ == self_type {
        None
    } else {
        let t = new_return_type_text(a, ws, false, true);
        if t.len() == 0 {
            None
        } else {
            Some(a.name@ + ": "@ + t)
        }
    }
}

/// The parameters of a generated method, in argument order.
pub open spec fn fn_arguments_text(self_type: Seq<char>, args: Seq<Arg>, ws: Seq<CWrapper>) -> Seq<Seq<char>>
    decreases args.len(),
{
    if args.len() == 0 {
        Seq::empty()
    } else {
        let rest = fn_arguments_text(self_type, args.drop_last(), ws);
        match fn_argument_text(self_type, args.last(), ws) {
            Some(t) => rest.push(t),
            None => rest,
        }
    }
}

/// What a generated method passes to the C function for an argument: the
/// inner pointer of a wrapper (its own through `self`), else the converted
/// Rust value.
pub open spec fn call_argument_text(self_type: Seq<char>, a: Arg, ws: Seq<CWrapper>) -> Seq<char> {
    if wrapper_for(ws, wrapper_key(a)) is Some {
        if seq_ends_with(a.c_type@, self_type) {
            "self.get_inner()"@
        } else {
            a.name@ + ".get_inner()"@
        }
    } else {
        rs_to_c_return_text(a, a.name@, false)
    }
}

/// The arguments of the C call of a generated method, leaving out empty ones.
pub open spec fn call_arguments_text(self_type: Seq<char>, args: Seq<Arg>, ws: Seq<CWrapper>) -> Seq<Seq<char>>
    decreases args.len(),
{
    if args.len() == 0 {
        Seq::empty()
    } else {
        let rest = call_arguments_text(self_type, args.drop_last(), ws);
        let t = call_argument_text(self_type, args.last(), ws);
        if t.len() == 0 {
            rest
        } else {
            rest.push(t)
        }
    }
}

/// The method passes its own wrapper's pointer, so it takes `&self`.
pub open spec fn method_uses_self(self_type: Seq<char>, args: Seq<Arg>, ws: Seq<CWrapper>) -> bool {
    exists|k: int|
        0 <= k < args.len() && wrapper_for(ws, wrapper_key(#[trigger] args[k])) is Some && seq_ends_with(
            args[k].c_type@,
            self_type,
        )
}

/// The handler bounds of a method's arguments, in order.
pub open spec fn generic_bounds_text(args: Seq<Arg>) -> Seq<Seq<char>>
    decreases args.len(),
{
    if args.len() == 0 {
        Seq::empty()
    } else {
        let rest = generic_bounds_text(args.drop_last());
        match handler_bound_text(args.last()) {
            Some(t) => rest.push(t),
            None => rest,
        }
    }
}

/// The parts joined with `sep` between neighbours.
pub open spec fn join_text(parts: Seq<Seq<char>>, sep: Seq<char>) -> Seq<char>
    decreases parts.len(),
{
    if parts.len() == 0 {
        Seq::empty()
    } else if parts.len() == 1 {
        parts[0]
    } else {
        join_text(parts.drop_last(), sep) + sep + parts.last()
    }
}

/// The generic parameter list of a method: its handler bounds in angle
/// brackets, or nothing.
pub open spec fn where_clause_text(args: Seq<Arg>) -> Seq<char> {
    let g = generic_bounds_text(args);
    if g.len() == 0 {
        Seq::empty()
    } else {
        "<"@ + join_text(g, ", "@) + ">"@
    }
}

/// The statement a `close` method runs first: marks its owned resource closed.
pub open spec fn set_closed_text(m: Method) -> Seq<char> {
    if m.struct_method_name@ == "close"@ {
        "if let Some(inner) = self.inner.as_owned() { inner.close_already_called.set(true); } "@
    } else {
        Seq::empty()
    }
}

/// The return type of a generated method: a `&str` that is not tied to
/// `self` is static.
pub open spec fn method_return_text(m: Method, uses_self: bool, ws: Seq<CWrapper>) -> Seq<char> {
    let t = new_return_type_text(m.return_type, ws, true, false);
    if !uses_self && t == "&str"@ {
        "&'static str"@
    } else {
        t
    }
}

/// The text of the direct binding of a C function as a method of the wrapper
/// of C type `self_type`: its parameters, its call with converted arguments
/// and the conversion of the result.
pub open spec fn plain_method_text(self_type: Seq<char>, m: Method, ws: Seq<CWrapper>) -> Seq<char> {
    let args = m.arguments@;
    let uses_self = method_uses_self(self_type, args, ws);
    "#[inline]\n"@ + plain_method_docs_text(self_type, m, ws) + "pub fn "@ + m.struct_method_name@ + where_clause_text(args) + "("@ + (if uses_self {
        "&self, "@
    } else {
        Seq::empty()
    }) + join_text(fn_arguments_text(self_type, args, ws), ", "@) + ") -> "@ + method_return_text(m, uses_self, ws)
        + " { "@ + set_closed_text(m) + "unsafe { let result = "@ + m.fn_name@ + "("@ + join_text(
        call_arguments_text(self_type, args, ws),
        ", "@,
    ) + "); "@ + c_to_rs_return_text(m.return_type, "result"@, true, false) + " } }"@
}

/// The note a method returning a static string slice carries.
pub open spec fn static_str_note() -> Seq<char> {
    "SAFETY: this is static for performance reasons, so you should not store this without copying it!!"@
}

/// The documentation lines of the methods that bind a C function: the C
/// documentation as `method_doc_lines_text` gives it for the method's
/// parameters, then, for a static string slice result, the note on it.
pub open spec fn plain_doc_lines(self_type: Seq<char>, m: Method, ws: Seq<CWrapper>) -> Seq<(bool, Seq<char>)> {
    let args = m.arguments@;
    let uses_self = method_uses_self(self_type, args, ws);
    method_doc_lines_text(m.docs@.map_values(|d: String| d@), ws, Some(fn_arguments_text(self_type, args, ws)))
        + (if !uses_self && new_return_type_text(m.return_type, ws, true, false) == "&str"@ {
        seq![(false, static_str_note())]
    } else {
        Seq::empty()
    })
}

/// The documentation attributes of the methods that bind a C function.
pub open spec fn plain_method_docs_text(self_type: Seq<char>, m: Method, ws: Seq<CWrapper>) -> Seq<char> {
    method_docs_text(plain_doc_lines(self_type, m, ws))
}

/// The documentation lines before the first that mentions a parameter
/// section.
pub open spec fn before_parameters(lines: Seq<(bool, Seq<char>)>) -> Seq<(bool, Seq<char>)>
    decreases lines.len(),
{
    if lines.len() == 0 || seq_contains_seq(lines[0].1, " Parameter"@) {
        Seq::empty()
    } else {
        seq![lines[0]] + before_parameters(lines.drop_first())
    }
}

/// The arguments of a method can be converted: every grouping that is read
/// has the arguments it folds in.
pub open spec fn method_groupings_complete(m: Method, ws: Seq<CWrapper>) -> bool {
    &&& forall|k: int|
        0 <= k < m.arguments@.len() ==> (wrapper_for(ws, wrapper_key(#[trigger] m.arguments@[k])) is None
            && rs_to_c_needs_pair(m.arguments@[k])) ==> processing_members(m.arguments@[k].processing).len() >= 2
    &&& forall|k: int|
        0 <= k < m.arguments@.len() ==> bound_needs_handler(#[trigger] m.arguments@[k]) ==> processing_members(
            m.arguments@[k].processing,
        ).len() >= 1
    &&& c_to_rs_needs_pair(m.return_type) ==> processing_members(m.return_type.processing).len() >= 2
}

/// The argument is a mutable pointer to a primitive (an out-parameter).
pub open spec fn is_mut_primitive(a: Arg) -> bool {
    a.spec_is_mut_pointer() && a.spec_is_primitive()
}

/// The out-parameter arguments, in order.
pub open spec fn mut_primitives(args: Seq<Arg>) -> Seq<Arg>
    decreases args.len(),
{
    if args.len() == 0 {
        Seq::empty()
    } else if is_mut_primitive(args.last()) {
        mut_primitives(args.drop_last()).push(args.last())
    } else {
        mut_primitives(args.drop_last())
    }
}

/// A method that returns a status code and has exactly one out-parameter:
/// its binding returns that parameter's value instead.
pub open spec fn single_out_param(m: Method) -> bool {
    m.return_type.c_type@ == Arg::C_INT_RETURN_TYPE_STR@ && mut_primitives(m.arguments@).len() == 1
}

/// The parameters that are not `&mut` references.
pub open spec fn without_mut_refs(ps: Seq<Seq<char>>) -> Seq<Seq<char>>
    decreases ps.len(),
{
    if ps.len() == 0 {
        Seq::empty()
    } else if seq_contains_seq(ps.last(), "&mut "@) {
        without_mut_refs(ps.drop_last())
    } else {
        without_mut_refs(ps.drop_last()).push(ps.last())
    }
}

/// The first call argument (from `from`) that passes an out-parameter pointer.
pub open spec fn first_out_arg(names: Seq<Seq<char>>, from: int) -> Option<int>
    decreases names.len() - from,
{
    if from < 0 || from >= names.len() {
        None
    } else if seq_ends_with(names[from], "*mut _"@) {
        Some(from)
    } else {
        first_out_arg(names, from + 1)
    }
}

/// The binding of a method with a single out-parameter: it takes the other
/// parameters, passes a local for the out-parameter and returns its value, or
/// the error of a negative status code.
pub open spec fn out_param_method_text(self_type: Seq<char>, m: Method, ws: Seq<CWrapper>) -> Seq<char> {
    let args = m.arguments@;
    let uses_self = method_uses_self(self_type, args, ws);
    let rt = last_word(mut_primitives(args)[0].c_type@);
    let names = call_arguments_text(self_type, args, ws);
    let k = first_out_arg(names, 0)->0;
    "#[inline]\n"@ + method_docs_text(out_param_doc_lines(method_doc_lines_text(
        m.docs@.map_values(|d: String| d@),
        ws,
        Some(fn_arguments_text(self_type, args, ws)),
    ))) + "pub fn "@ + m.struct_method_name@ + where_clause_text(args) + "("@ + (if uses_self {
        "&self, "@
    } else {
        Seq::empty()
    }) + join_text(without_mut_refs(fn_arguments_text(self_type, args, ws)), ", "@) + ") -> Result<"@ + rt
        + ", AeronCError> { "@ + set_closed_text(m) + "unsafe { let mut mut_result: "@ + rt
        + " = Default::default(); let err_code = "@ + m.fn_name@ + "("@ + join_text(
        names.update(k, "&mut mut_result"@),
        ", "@,
    ) + "); if err_code < 0 { return Err(AeronCError::from_code(err_code)); } else { return Ok(mut_result); } } }"@
}

/// The getter that a `constants`, `buffers` or `values` method with one
/// parameter besides `self` gets: it fills a zeroed value and returns it.
pub open spec fn getter_method_text(m: Method, uses_self: bool, ws: Seq<CWrapper>, lines: Seq<(bool, Seq<char>)>) -> Seq<char> {
    let n = m.struct_method_name@;
    if (n == "constants"@ || n == "buffers"@ || n == "values"@) && m.arguments@.len() == 2 {
        let t = new_return_type_text(m.arguments@[1], ws, false, false);
        "\n#[inline]\n"@ + method_docs_text(before_parameters(lines)) + "pub fn get_"@ + n + where_clause_text(m.arguments@) + "("@ + (if uses_self {
            "&self, "@
        } else {
            Seq::empty()
        }) + ") -> Result<"@ + t + ", AeronCError> { let result = "@ + t
            + "::new_zeroed_on_stack(); self."@ + n + "(&result)?; Ok(result) }"@
    } else {
        Seq::empty()
    }
}

/// The note on the method that fills a given string.
pub open spec fn string_into_note() -> Seq<char> {
    "#[doc = \"NOTE: allocation friendly method, the string capacity must be set as it will truncate string to capacity it will never grow the string. So if you pass String::new() it will write 0 chars\"]\n"@
}

/// The string methods that a method filling a C string buffer of given
/// capacity gets: one returning a new `String`, one filling a given one.
pub open spec fn string_methods_text(m: Method, uses_self: bool, docs: Seq<char>) -> Seq<char> {
    let n = m.struct_method_name@;
    let args = m.arguments@;
    if args.len() == 3 && uses_self && args[1].spec_is_mut_c_string() && args[2].c_type@ == "usize"@ {
        "\n#[inline]\n"@ + docs + "pub fn "@ + n + "_as_string(&self, max_length: usize) -> Result<String, AeronCError> { let mut result = String::with_capacity(max_length); self."@
            + n + "_into(&mut result)?; Ok(result) }\n#[inline]\n"@ + docs + string_into_note() + "pub fn "@ + n
            + "_into(&self, dst_truncate_to_capacity: &mut String) -> Result<i32, AeronCError> { unsafe { let capacity = dst_truncate_to_capacity.capacity(); let vec = dst_truncate_to_capacity.as_mut_vec(); vec.set_len(capacity); let result = self."@
            + n + "(vec.as_mut_ptr() as *mut _, capacity)?; let mut len = 0; loop { if len == capacity { break; } let val = vec[len]; if val == 0 { break; } len += 1; } vec.set_len(len); Ok(result) } }"@
    } else {
        Seq::empty()
    }
}

/// Everything a method binds to on its wrapper: the method itself (returning
/// its out-parameter where it has exactly one) followed by its string,
/// getter and one-shot closure variants.
pub open spec fn method_bindings_text(self_type: Seq<char>, m: Method, ws: Seq<CWrapper>, hs: Seq<CHandler>) -> Seq<char> {
    let uses_self = method_uses_self(self_type, m.arguments@, ws);
    (if single_out_param(m) {
        out_param_method_text(self_type, m, ws)
    } else {
        plain_method_text(self_type, m, ws)
    }) + string_methods_text(m, uses_self, plain_method_docs_text(self_type, m, ws)) + getter_method_text(
        m,
        uses_self,
        ws,
        plain_doc_lines(self_type, m, ws),
    ) + once_method_text(self_type, m, ws, hs)
}

/// A method takes no pointer to a pointer (constructors do).
pub open spec fn is_bindable_method(m: Method) -> bool {
    forall|k: int| 0 <= k < m.arguments@.len() ==> !(#[trigger] m.arguments@[k]).spec_is_double_mut_pointer()
}

/// A method with a single out-parameter passes it as a pointer.
pub open spec fn out_param_passed(self_type: Seq<char>, m: Method, ws: Seq<CWrapper>) -> bool {
    single_out_param(m) ==> first_out_arg(call_arguments_text(self_type, m.arguments@, ws), 0) is Some
}

/// The bindings of the wrapper's methods, in declaration order, leaving out
/// the constructors.
pub open spec fn methods_bindings_text(self_type: Seq<char>, ms: Seq<Method>, ws: Seq<CWrapper>, hs: Seq<CHandler>) -> Seq<Seq<char>>
    decreases ms.len(),
{
    if ms.len() == 0 {
        Seq::empty()
    } else if is_bindable_method(ms.last()) {
        methods_bindings_text(self_type, ms.drop_last(), ws, hs).push(method_bindings_text(self_type, ms.last(), ws, hs))
    } else {
        methods_bindings_text(self_type, ms.drop_last(), ws, hs)
    }
}

/// The return (or argument) type of a generated method together with the
/// wrappers that it may map to, each registered under its C type name.
#[derive(Debug)]
pub struct ReturnType {
    original: Arg,
    wrappers: Vec<CWrapper>,
}

impl ReturnType {
    /// The type as it appears in the C binding.
    pub closed spec fn spec_original(self) -> Arg {
        self.original
    }

    /// The wrappers, in registration order.
    pub closed spec fn spec_wrappers(self) -> Seq<CWrapper> {
        self.wrappers@
    }

    /// Pairs a binding type with the wrappers it may map to.
    pub fn new(original_c_type: Arg, wrappers: Vec<CWrapper>) -> (r: ReturnType)
        ensures
            r.spec_original() == original_c_type,
            r.spec_wrappers() == wrappers@,
    {
        ReturnType { original: original_c_type, wrappers }
    }

    /// The Rust type that stands for the binding type in a generated method
    /// (empty where the argument is folded into its neighbour).
    pub fn get_new_return_type(&self, convert_errors: bool, use_ref_for_cwrapper: bool) -> (r: String)
        ensures
            r@ == new_return_type_text(self.spec_original(), self.spec_wrappers(), convert_errors, use_ref_for_cwrapper),
    {
        new_type_text(&self.original, self.wrappers.as_slice(), convert_errors, use_ref_for_cwrapper)
    }

    /// The bound `H: Callback` that a handler argument puts on its method.
    pub fn method_generics_for_where(&self) -> (r: Option<String>)
        requires
            bound_needs_handler(self.spec_original()) ==> processing_members(self.spec_original().processing).len() >= 1,
        ensures
            opt_text(r) == handler_bound_text(self.spec_original()),
    {
        handler_bound(&self.original)
    }

    /// The type parameter that a handler argument puts on its method.
    pub fn method_generics_for_method(&self) -> (r: Option<String>)
        requires
            bound_needs_handler(self.spec_original()) ==> processing_members(self.spec_original().processing).len() >= 1,
        ensures
            opt_text(r) == handler_param_text(self.spec_original()),
    {
        match &self.original.processing {
            ArgProcessing::Handler(hc) => {
                if self.original.is_mut_pointer() {
                    return None;
                }
                let p = snake_to_pascal_case(hc[0].c_type.as_str());
                let r = concat2(p.as_str(), "HandlerImpl");
                Some(r)
            },
            _ => None,
        }
    }

    /// The expression that converts a Rust argument to what the C function
    /// takes (see `rs_to_c_return_text`).
    pub fn handle_rs_to_c_return(&self, result: &str, include_field_name: bool) -> (r: String)
        requires
            rs_to_c_needs_pair(self.spec_original()) ==> processing_members(self.spec_original().processing).len() >= 2,
        ensures
            r@ == rs_to_c_return_text(self.spec_original(), result@, include_field_name),
    {
        rs_to_c_text(&self.original, result, include_field_name)
    }

    /// The expression that converts what the C function returned to the Rust
    /// return value (see `c_to_rs_return_text`).
    pub fn handle_c_to_rs_return(&self, result: &str, convert_errors: bool, use_self: bool) -> (r: String)
        requires
            c_to_rs_needs_pair(self.spec_original()) ==> processing_members(self.spec_original().processing).len() >= 2,
        ensures
            r@ == c_to_rs_return_text(self.spec_original(), result@, convert_errors, use_self),
    {
        c_to_rs_text(&self.original, result, convert_errors, use_self)
    }
}

/// See `handler_bound_text`.
fn handler_bound(a: &Arg) -> (r: Option<String>)
    requires
        bound_needs_handler(*a) ==> processing_members(a.processing).len() >= 1,
    ensures
        opt_text(r) == handler_bound_text(*a),
{
    match &a.processing {
        ArgProcessing::Handler(hc) => {
            if a.is_mut_pointer() {
                return None;
            }
            let p = snake_to_pascal_case(hc[0].c_type.as_str());
            let mut out = String::new();
            push_str(&mut out, p.as_str());
            push_str(&mut out, "HandlerImpl: ");
            push_str(&mut out, p.as_str());
            push_str(&mut out, "Callback");
            assert(out@ =~= handler_bound_text(*a)->0);
            Some(out)
        },
        _ => None,
    }
}

/// See `wrapper_key`.
pub(crate) fn wrapper_key_of(a: &Arg) -> (r: String)
    ensures
        r@ == wrapper_key(*a),
{
    if a.is_single_mut_pointer() {
        last_word_of(a.c_type.as_str())
    } else {
        owned("notfound")
    }
}

/// Joins the parts with `sep` between neighbours.
pub(crate) fn join(parts: &Vec<String>, sep: &str) -> (r: String)
    ensures
        r@ == join_text(parts@.map_values(|p: String| p@), sep@),
{
    let ghost views = parts@.map_values(|p: String| p@);
    let mut out = String::new();
    let mut i: usize = 0;
    while i < parts.len()
        invariant
            i <= parts@.len(),
            views == parts@.map_values(|p: String| p@),
            out@ == join_text(views.take(i as int), sep@),
        decreases parts@.len() - i,
    {
        let ghost before = out@;
        if i > 0 {
            push_str(&mut out, sep);
        }
        push_str(&mut out, parts[i].as_str());
        proof {
            let t = views.take(i + 1);
            assert(t.drop_last() =~= views.take(i as int));
            assert(t.last() == parts@[i as int]@);
            if i == 0 {
                assert(out@ =~= t[0]);
            } else {
                assert(out@ =~= before + sep@ + t.last());
            }
        }
        i += 1;
    }
    assert(views.take(parts@.len() as int) =~= views);
    out
}

/// See `fn_arguments_text`.
fn fn_arguments(self_type: &str, args: &Vec<Arg>, ws: &[CWrapper]) -> (r: Vec<String>)
    ensures
        r@.map_values(|p: String| p@) == fn_arguments_text(self_type@, args@, ws@),
{
    let mut out: Vec<String> = Vec::new();
    let mut i: usize = 0;
    while i < args.len()
        invariant
            i <= args@.len(),
            out@.map_values(|p: String| p@) == fn_arguments_text(self_type@, args@.take(i as int), ws@),
        decreases args@.len() - i,
    {
        let a = &args[i];
        let ghost before = out@;
        let key = wrapper_key_of(a);
        let own = match find_wrapper(ws, key.as_str()) {
            Some(j) => str_eq(ws[j].c_type_name.as_str(), self_type),
            None => false,
        };
        if !own {
            let t = new_type_text(a, ws, false, true);
            if t.as_str().unicode_len() > 0 {
                out.push(concat3(a.name.as_str(), ": ", t.as_str()));
            }
        }
        proof {
            let t = args@.take(i + 1);
            assert(t.drop_last() =~= args@.take(i as int));
            assert(t.last() == args@[i as int]);
            assert(out@.map_values(|p: String| p@) =~= match fn_argument_text(self_type@, args@[i as int], ws@) {
                Some(x) => before.map_values(|p: String| p@).push(x),
                None => before.map_values(|p: String| p@),
            });
        }
        i += 1;
    }
    assert(args@.take(args@.len() as int) =~= args@);
    out
}

/// See `call_arguments_text` and `method_uses_self`.
pub(crate) fn call_arguments(self_type: &str, args: &Vec<Arg>, ws: &[CWrapper]) -> (r: (Vec<String>, bool))
    requires
        forall|k: int|
            0 <= k < args@.len() ==> (wrapper_for(ws@, wrapper_key(#[trigger] args@[k])) is None
                && rs_to_c_needs_pair(args@[k])) ==> processing_members(args@[k].processing).len() >= 2,
    ensures
        r.0@.map_values(|p: String| p@) == call_arguments_text(self_type@, args@, ws@),
        r.1 == method_uses_self(self_type@, args@, ws@),
{
    let mut out: Vec<String> = Vec::new();
    let mut uses_self = false;
    let mut i: usize = 0;
    while i < args.len()
        invariant
            i <= args@.len(),
            forall|k: int|
                0 <= k < args@.len() ==> (wrapper_for(ws@, wrapper_key(#[trigger] args@[k])) is None
                    && rs_to_c_needs_pair(args@[k])) ==> processing_members(args@[k].processing).len() >= 2,
            out@.map_values(|p: String| p@) == call_arguments_text(self_type@, args@.take(i as int), ws@),
            uses_self == method_uses_self(self_type@, args@.take(i as int), ws@),
        decreases args@.len() - i,
    {
        let a = &args[i];
        let ghost before = out@;
        let key = wrapper_key_of(a);
        let t = match find_wrapper(ws, key.as_str()) {
            Some(_) => {
                if str_ends_with(a.c_type.as_str(), self_type) {
                    uses_self = true;
                    owned("self.get_inner()")
                } else {
                    concat2(a.name.as_str(), ".get_inner()")
                }
            },
            None => rs_to_c_text(a, a.name.as_str(), false),
        };
        if t.as_str().unicode_len() > 0 {
            out.push(t);
        }
        proof {
            let tk = args@.take(i + 1);
            assert(tk.drop_last() =~= args@.take(i as int));
            assert(tk.last() == args@[i as int]);
            assert(out@.map_values(|p: String| p@) =~= if call_argument_text(self_type@, args@[i as int], ws@).len() == 0 {
                before.map_values(|p: String| p@)
            } else {
                before.map_values(|p: String| p@).push(call_argument_text(self_type@, args@[i as int], ws@))
            });
            if method_uses_self(self_type@, tk, ws@) {
                let k = choose|k: int|
                    0 <= k < tk.len() && wrapper_for(ws@, wrapper_key(#[trigger] tk[k])) is Some && seq_ends_with(
                        tk[k].c_type@,
                        self_type@,
                    );
                if k < i {
                    assert(args@.take(i as int)[k] == tk[k]);
                }
            }
            if method_uses_self(self_type@, args@.take(i as int), ws@) {
                let k = choose|k: int|
                    0 <= k < i && wrapper_for(ws@, wrapper_key(#[trigger] args@.take(i as int)[k])) is Some
                        && seq_ends_with(args@.take(i as int)[k].c_type@, self_type@);
                assert(tk[k] == args@.take(i as int)[k]);
            }
        }
        i += 1;
    }
    assert(args@.take(args@.len() as int) =~= args@);
    (out, uses_self)
}

/// See `generic_bounds_text`.
fn generic_bounds(args: &Vec<Arg>) -> (r: Vec<String>)
    requires
        forall|k: int| 0 <= k < args@.len() ==> bound_needs_handler(#[trigger] args@[k]) ==> processing_members(
            args@[k].processing,
        ).len() >= 1,
    ensures
        r@.map_values(|p: String| p@) == generic_bounds_text(args@),
{
    let mut out: Vec<String> = Vec::new();
    let mut i: usize = 0;
    while i < args.len()
        invariant
            i <= args@.len(),
            forall|k: int| 0 <= k < args@.len() ==> bound_needs_handler(#[trigger] args@[k]) ==> processing_members(
                args@[k].processing,
            ).len() >= 1,
            out@.map_values(|p: String| p@) == generic_bounds_text(args@.take(i as int)),
        decreases args@.len() - i,
    {
        let ghost before = out@;
        let b = handler_bound(&args[i]);
        match b {
            Some(t) => out.push(t),
            None => {},
        }
        proof {
            let tk = args@.take(i + 1);
            assert(tk.drop_last() =~= args@.take(i as int));
            assert(tk.last() == args@[i as int]);
            assert(out@.map_values(|p: String| p@) =~= match handler_bound_text(args@[i as int]) {
                Some(x) => before.map_values(|p: String| p@).push(x),
                None => before.map_values(|p: String| p@),
            });
        }
        i += 1;
    }
    assert(args@.take(args@.len() as int) =~= args@);
    out
}

impl CWrapper {
    /// See `plain_doc_lines`.
    pub(crate) fn plain_doc_lines_exec(&self, method: &Method, wrappers: &[CWrapper]) -> (r: Vec<(bool, String)>)
        requires
            method_groupings_complete(*method, wrappers@),
        ensures
            r@.map_values(|p: (bool, String)| (p.0, p.1@)) == plain_doc_lines(self.c_type_name@, *method, wrappers@),
    {
        let st = self.c_type_name.as_str();
        let (_, uses_self) = call_arguments(st, &method.arguments, wrappers);
        let params = fn_arguments(st, &method.arguments, wrappers);
        let mut lines = crate::docs::method_doc_lines(method.docs.as_slice(), wrappers, Some(params.as_slice()));
        let ghost before = lines@;
        let ret0 = new_type_text(&method.return_type, wrappers, true, false);
        if !uses_self && str_eq(ret0.as_str(), "&str") {
            lines.push((false, owned("SAFETY: this is static for performance reasons, so you should not store this without copying it!!")));
            assert(lines@.map_values(|p: (bool, String)| (p.0, p.1@)) =~= before.map_values(|p: (bool, String)| (p.0, p.1@)).push(
                (false, static_str_note()),
            ));
        } else {
            assert(lines@.map_values(|p: (bool, String)| (p.0, p.1@)) =~= before.map_values(|p: (bool, String)| (p.0, p.1@)) + Seq::<
                (bool, Seq<char>),
            >::empty());
        }
        lines
    }

    /// The direct binding of `method` as a method of this wrapper (see
    /// `plain_method_text`).
    pub fn generate_method(&self, method: &Method, wrappers: &[CWrapper]) -> (r: String)
        requires
            method_groupings_complete(*method, wrappers@),
        ensures
            r@ == plain_method_text(self.c_type_name@, *method, wrappers@),
    {
        let st = self.c_type_name.as_str();
        let (names, uses_self) = call_arguments(st, &method.arguments, wrappers);
        let params = fn_arguments(st, &method.arguments, wrappers);
        let w = where_clause(&method.arguments);
        let ret0 = new_type_text(&method.return_type, wrappers, true, false);
        let static_str = !uses_self && str_eq(ret0.as_str(), "&str");
        let ret = if static_str {
            owned("&'static str")
        } else {
            ret0
        };
        let docs = crate::docs::method_docs(&self.plain_doc_lines_exec(method, wrappers));
        let mut out = String::new();
        push_str(&mut out, "#[inline]\n");
        push_str(&mut out, docs.as_str());
        push_str(&mut out, "pub fn ");
        push_str(&mut out, method.struct_method_name.as_str());
        push_str(&mut out, w.as_str());
        push_str(&mut out, "(");
        if uses_self {
            push_str(&mut out, "&self, ");
        }
        let p = join(&params, ", ");
        push_str(&mut out, p.as_str());
        push_str(&mut out, ") -> ");
        push_str(&mut out, ret.as_str());
        push_str(&mut out, " { ");
        if str_eq(method.struct_method_name.as_str(), "close") {
            push_str(&mut out, "if let Some(inner) = self.inner.as_owned() { inner.close_already_called.set(true); } ");
        }
        push_str(&mut out, "unsafe { let result = ");
        push_str(&mut out, method.fn_name.as_str());
        push_str(&mut out, "(");
        let n = join(&names, ", ");
        push_str(&mut out, n.as_str());
        push_str(&mut out, "); ");
        let conv = c_to_rs_text(&method.return_type, "result", true, false);
        push_str(&mut out, conv.as_str());
        push_str(&mut out, " } }");
        assert(out@ =~= plain_method_text(self.c_type_name@, *method, wrappers@));
        out
    }
}

/// See `mut_primitives`: the index of the only out-parameter, if there is
/// exactly one.
fn single_mut_primitive(args: &Vec<Arg>) -> (r: Option<usize>)
    ensures
        mut_primitives(args@).len() == 1 <==> r is Some,
        r matches Some(k) ==> k < args@.len() && mut_primitives(args@)[0] == args@[k as int],
{
    let mut found: Option<usize> = None;
    let mut count: usize = 0;
    let mut i: usize = 0;
    while i < args.len()
        invariant
            i <= args@.len(),
            count == mut_primitives(args@.take(i as int)).len(),
            count <= i,
            count >= 1 <==> found is Some,
            found matches Some(k) ==> k < i && mut_primitives(args@.take(i as int))[0] == args@[k as int],
        decreases args@.len() - i,
    {
        proof {
            let t = args@.take(i + 1);
            assert(t.drop_last() =~= args@.take(i as int));
            assert(t.last() == args@[i as int]);
        }
        if args[i].is_mut_pointer() && args[i].is_primitive() {
            if count == 0 {
                found = Some(i);
            }
            count += 1;
        }
        i += 1;
    }
    assert(args@.take(args@.len() as int) =~= args@);
    if count == 1 {
        found
    } else {
        None
    }
}

/// See `without_mut_refs`.
fn drop_mut_refs(ps: Vec<String>) -> (r: Vec<String>)
    ensures
        r@.map_values(|p: String| p@) == without_mut_refs(ps@.map_values(|p: String| p@)),
{
    let ghost views = ps@.map_values(|p: String| p@);
    let mut out: Vec<String> = Vec::new();
    let mut i: usize = 0;
    while i < ps.len()
        invariant
            i <= ps@.len(),
            views == ps@.map_values(|p: String| p@),
            out@.map_values(|p: String| p@) == without_mut_refs(views.take(i as int)),
        decreases ps@.len() - i,
    {
        let ghost before = out@;
        proof {
            let t = views.take(i + 1);
            assert(t.drop_last() =~= views.take(i as int));
            assert(t.last() == ps@[i as int]@);
        }
        if !str_contains(ps[i].as_str(), "&mut ") {
            out.push(ps[i].clone());
            assert(out@.map_values(|p: String| p@) =~= before.map_values(|p: String| p@).push(ps@[i as int]@));
        }
        i += 1;
    }
    assert(views.take(ps@.len() as int) =~= views);
    out
}

/// See `first_out_arg`.
fn first_out(names: &Vec<String>) -> (r: Option<usize>)
    ensures
        r matches Some(j) ==> j < names@.len(),
        match first_out_arg(names@.map_values(|p: String| p@), 0) {
            Some(k) => r matches Some(j) && j == k,
            None => r is None,
        },
{
    let ghost views = names@.map_values(|p: String| p@);
    let mut i: usize = 0;
    while i < names.len()
        invariant
            i <= names@.len(),
            views == names@.map_values(|p: String| p@),
            first_out_arg(views, 0) == first_out_arg(views, i as int),
        decreases names@.len() - i,
    {
        if str_ends_with(names[i].as_str(), "*mut _") {
            return Some(i);
        }
        i += 1;
    }
    None
}

impl CWrapper {
    /// The binding of a method with a single out-parameter (see
    /// `out_param_method_text`).
    fn generate_out_param_method(&self, method: &Method, wrappers: &[CWrapper]) -> (r: String)
        requires
            method_groupings_complete(*method, wrappers@),
            single_out_param(*method),
            out_param_passed(self.c_type_name@, *method, wrappers@),
        ensures
            r@ == out_param_method_text(self.c_type_name@, *method, wrappers@),
    {
        let st = self.c_type_name.as_str();
        let (mut names, uses_self) = call_arguments(st, &method.arguments, wrappers);
        let all_params = fn_arguments(st, &method.arguments, wrappers);
        let lines = crate::docs::method_doc_lines(method.docs.as_slice(), wrappers, Some(all_params.as_slice()));
        let docs = crate::docs::method_docs(&crate::docs::out_param_docs(lines));
        let params = drop_mut_refs(all_params);
        let w = where_clause(&method.arguments);
        let out_index = single_mut_primitive(&method.arguments);
        let k = match out_index {
            Some(k) => k,
            None => 0,
        };
        let rt = last_word_of(method.arguments[k].c_type.as_str());
        let ghost name_views = names@.map_values(|p: String| p@);
        let j = match first_out(&names) {
            Some(j) => j,
            None => 0,
        };
        names.set(j, owned("&mut mut_result"));
        assert(names@.map_values(|p: String| p@) =~= name_views.update(j as int, "&mut mut_result"@));
        let mut out = String::new();
        push_str(&mut out, "#[inline]\n");
        push_str(&mut out, docs.as_str());
        push_str(&mut out, "pub fn ");
        push_str(&mut out, method.struct_method_name.as_str());
        push_str(&mut out, w.as_str());
        push_str(&mut out, "(");
        if uses_self {
            push_str(&mut out, "&self, ");
        }
        let p = join(&params, ", ");
        push_str(&mut out, p.as_str());
        push_str(&mut out, ") -> Result<");
        push_str(&mut out, rt.as_str());
        push_str(&mut out, ", AeronCError> { ");
        if str_eq(method.struct_method_name.as_str(), "close") {
            push_str(&mut out, "if let Some(inner) = self.inner.as_owned() { inner.close_already_called.set(true); } ");
        }
        push_str(&mut out, "unsafe { let mut mut_result: ");
        push_str(&mut out, rt.as_str());
        push_str(&mut out, " = Default::default(); let err_code = ");
        push_str(&mut out, method.fn_name.as_str());
        push_str(&mut out, "(");
        let n = join(&names, ", ");
        push_str(&mut out, n.as_str());
        push_str(&mut out, "); if err_code < 0 { return Err(AeronCError::from_code(err_code)); } else { return Ok(mut_result); } } }");
        assert(out@ =~= out_param_method_text(self.c_type_name@, *method, wrappers@));
        out
    }

    /// Everything `method` binds to on this wrapper (see `method_bindings_text`).
    pub fn generate_method_bindings(&self, method: &Method, wrappers: &[CWrapper], closure_handlers: &Vec<CHandler>) -> (r: String)
        requires
            method_groupings_complete(*method, wrappers@),
            out_param_passed(self.c_type_name@, *method, wrappers@),
            handlers_complete(closure_handlers@),
        ensures
            r@ == method_bindings_text(self.c_type_name@, *method, wrappers@, closure_handlers@),
    {
        let st = self.c_type_name.as_str();
        let mut out = if single_mut_primitive(&method.arguments).is_some() && method.return_type.is_c_raw_int() {
            self.generate_out_param_method(method, wrappers)
        } else {
            self.generate_method(method, wrappers)
        };
        let (_, uses_self) = call_arguments(st, &method.arguments, wrappers);
        let lines = self.plain_doc_lines_exec(method, wrappers);
        let docs = crate::docs::method_docs(&lines);
        push_string_methods(&mut out, method, uses_self, docs.as_str());
        push_getter_method(&mut out, method, uses_self, wrappers, &lines);
        let once = self.generate_once_method(method, wrappers, closure_handlers);
        push_str(&mut out, once.as_str());
        out
    }
}

/// Appends the string methods of `method` (see `string_methods_text`).
fn push_string_methods(out: &mut String, method: &Method, uses_self: bool, docs: &str)
    ensures
        final(out)@ == old(out)@ + string_methods_text(*method, uses_self, docs@),
{
    let n = method.struct_method_name.as_str();
    let args = &method.arguments;
    if args.len() == 3 && uses_self && args[1].is_mut_c_string() && args[2].is_usize() {
        push_str(out, "\n#[inline]\n");
        push_str(out, docs);
        push_str(out, "pub fn ");
        push_str(out, n);
        push_str(out, "_as_string(&self, max_length: usize) -> Result<String, AeronCError> { let mut result = String::with_capacity(max_length); self.");
        push_str(out, n);
        push_str(out, "_into(&mut result)?; Ok(result) }\n#[inline]\n");
        push_str(out, docs);
        push_str(out, "#[doc = \"NOTE: allocation friendly method, the string capacity must be set as it will truncate string to capacity it will never grow the string. So if you pass String::new() it will write 0 chars\"]\n");
        push_str(out, "pub fn ");
        push_str(out, n);
        push_str(out, "_into(&self, dst_truncate_to_capacity: &mut String) -> Result<i32, AeronCError> { unsafe { let capacity = dst_truncate_to_capacity.capacity(); let vec = dst_truncate_to_capacity.as_mut_vec(); vec.set_len(capacity); let result = self.");
        push_str(out, n);
        push_str(out, "(vec.as_mut_ptr() as *mut _, capacity)?; let mut len = 0; loop { if len == capacity { break; } let val = vec[len]; if val == 0 { break; } len += 1; } vec.set_len(len); Ok(result) } }");
    }
    assert(out@ =~= old(out)@ + string_methods_text(*method, uses_self, docs@));
}

/// See `before_parameters`.
fn lines_before_parameters(lines: &Vec<(bool, String)>) -> (r: Vec<(bool, String)>)
    ensures
        r@.map_values(|p: (bool, String)| (p.0, p.1@)) == before_parameters(lines@.map_values(|p: (bool, String)| (p.0, p.1@))),
{
    let ghost lv = lines@.map_values(|p: (bool, String)| (p.0, p.1@));
    let mut out: Vec<(bool, String)> = Vec::new();
    let mut i: usize = 0;
    proof {
        assert(lv.skip(0) =~= lv);
    }
    while i < lines.len()
        invariant
            i <= lines@.len(),
            lv == lines@.map_values(|p: (bool, String)| (p.0, p.1@)),
            out@.map_values(|p: (bool, String)| (p.0, p.1@)) + before_parameters(lv.skip(i as int)) == before_parameters(lv),
        decreases lines@.len() - i,
    {
        proof {
            assert(lv.skip(i as int)[0] == lv[i as int]);
            assert(lv.skip(i as int).drop_first() =~= lv.skip(i + 1));
        }
        if str_contains(lines[i].1.as_str(), " Parameter") {
            proof {
                reveal_strlit(" Parameter");
                assert(out@.map_values(|p: (bool, String)| (p.0, p.1@)) =~= before_parameters(lv));
            }
            return out;
        }
        let ghost before = out@;
        out.push((lines[i].0, owned(lines[i].1.as_str())));
        proof {
            reveal_strlit(" Parameter");
            assert(out@.map_values(|p: (bool, String)| (p.0, p.1@)) =~= before.map_values(|p: (bool, String)| (p.0, p.1@)).push(
                lv[i as int],
            ));
            assert(out@.map_values(|p: (bool, String)| (p.0, p.1@)) + before_parameters(lv.skip(i + 1)) =~= before.map_values(
                |p: (bool, String)| (p.0, p.1@),
            ) + before_parameters(lv.skip(i as int)));
        }
        i += 1;
    }
    proof {
        assert(lv.skip(i as int) =~= Seq::<(bool, Seq<char>)>::empty());
        assert(out@.map_values(|p: (bool, String)| (p.0, p.1@)) =~= before_parameters(lv));
    }
    out
}

/// Appends the getter of `method` (see `getter_method_text`).
fn push_getter_method(out: &mut String, method: &Method, uses_self: bool, wrappers: &[CWrapper], lines: &Vec<(bool, String)>)
    requires
        method_groupings_complete(*method, wrappers@),
    ensures
        final(out)@ == old(out)@ + getter_method_text(
            *method,
            uses_self,
            wrappers@,
            lines@.map_values(|p: (bool, String)| (p.0, p.1@)),
        ),
{
    let n = method.struct_method_name.as_str();
    let args = &method.arguments;
    if (str_eq(n, "constants") || str_eq(n, "buffers") || str_eq(n, "values")) && args.len() == 2 {
        let t = new_type_text(&args[1], wrappers, false, false);
        let w = where_clause(args);
        let docs = crate::docs::method_docs(&lines_before_parameters(lines));
        let mut text = String::new();
        push_str(&mut text, "\n#[inline]\n");
        push_str(&mut text, docs.as_str());
        push_str(&mut text, "pub fn get_");
        push_str(&mut text, n);
        push_str(&mut text, w.as_str());
        push_str(&mut text, "(");
        if uses_self {
            push_str(&mut text, "&self, ");
        }
        push_str(&mut text, ") -> Result<");
        push_str(&mut text, t.as_str());
        push_str(&mut text, ", AeronCError> { let result = ");
        push_str(&mut text, t.as_str());
        push_str(&mut text, "::new_zeroed_on_stack(); self.");
        push_str(&mut text, n);
        push_str(&mut text, "(&result)?; Ok(result) }");
        assert(text@ =~= getter_method_text(*method, uses_self, wrappers@, lines@.map_values(|p: (bool, String)| (p.0, p.1@))));
        push_str(out, text.as_str());
    } else {
        assert(getter_method_text(*method, uses_self, wrappers@, lines@.map_values(|p: (bool, String)| (p.0, p.1@))) =~= Seq::<char>::empty());
        assert(out@ =~= old(out)@ + getter_method_text(*method, uses_self, wrappers@, lines@.map_values(|p: (bool, String)| (p.0, p.1@))));
    }
}

/// See `where_clause_text`.
pub(crate) fn where_clause(args: &Vec<Arg>) -> (r: String)
    requires
        forall|k: int| 0 <= k < args@.len() ==> bound_needs_handler(#[trigger] args@[k]) ==> processing_members(
            args@[k].processing,
        ).len() >= 1,
    ensures
        r@ == where_clause_text(args@),
{
    let bounds = generic_bounds(args);
    let mut out = String::new();
    if bounds.len() > 0 {
        push_str(&mut out, "<");
        let g = join(&bounds, ", ");
        push_str(&mut out, g.as_str());
        push_str(&mut out, ">");
    }
    assert(bounds@.map_values(|p: String| p@).len() == bounds@.len());
    assert(out@ =~= where_clause_text(args@));
    out
}

/// Every method of the list can be bound on the wrapper of C type `self_type`.
pub open spec fn methods_bindable(self_type: Seq<char>, ms: Seq<Method>, ws: Seq<CWrapper>) -> bool {
    forall|k: int|
        0 <= k < ms.len() && is_bindable_method(#[trigger] ms[k]) ==> method_groupings_complete(ms[k], ws)
            && out_param_passed(self_type, ms[k], ws)
}

impl CWrapper {
    /// The bindings of this wrapper's methods, in declaration order, leaving
    /// out the constructors (see `methods_bindings_text`).
    pub fn bind_methods(&self, wrappers: &[CWrapper], closure_handlers: &Vec<CHandler>) -> (r: Vec<String>)
        requires
            methods_bindable(self.c_type_name@, self.methods@, wrappers@),
            handlers_complete(closure_handlers@),
        ensures
            r@.map_values(|p: String| p@) == methods_bindings_text(self.c_type_name@, self.methods@, wrappers@, closure_handlers@),
    {
        let mut out: Vec<String> = Vec::new();
        let mut i: usize = 0;
        while i < self.methods.len()
            invariant
                i <= self.methods@.len(),
                methods_bindable(self.c_type_name@, self.methods@, wrappers@),
                handlers_complete(closure_handlers@),
                out@.map_values(|p: String| p@) == methods_bindings_text(
                    self.c_type_name@,
                    self.methods@.take(i as int),
                    wrappers@,
                    closure_handlers@,
                ),
            decreases self.methods@.len() - i,
        {
            let m = &self.methods[i];
            let ghost before = out@;
            let mut bindable = true;
            let mut j: usize = 0;
            while j < m.arguments.len()
                invariant
                    j <= m.arguments@.len(),
                    bindable == forall|k: int| 0 <= k < j ==> !(#[trigger] m.arguments@[k]).spec_is_double_mut_pointer(),
                decreases m.arguments@.len() - j,
            {
                if m.arguments[j].is_double_mut_pointer() {
                    bindable = false;
                }
                j += 1;
            }
            if bindable {
                out.push(self.generate_method_bindings(m, wrappers, closure_handlers));
            }
            proof {
                let t = self.methods@.take(i + 1);
                assert(t.drop_last() =~= self.methods@.take(i as int));
                assert(t.last() == self.methods@[i as int]);
                assert(out@.map_values(|p: String| p@) =~= if is_bindable_method(*m) {
                    before.map_values(|p: String| p@).push(method_bindings_text(self.c_type_name@, *m, wrappers@, closure_handlers@))
                } else {
                    before.map_values(|p: String| p@)
                });
            }
            i += 1;
        }
        assert(self.methods@.take(self.methods@.len() as int) =~= self.methods@);
        out
    }
}

/// A method of the list whose C function name contains `_init`.
pub open spec fn has_init_method(ms: Seq<Method>) -> bool {
    exists|k: int| 0 <= k < ms.len() && seq_contains_seq((#[trigger] ms[k]).fn_name@, "_init"@)
}

/// The `Drop` a wrapper class gets when it has a single `close` method and no
/// `_init` constructor: a last owner that was not closed is closed on drop
/// if it closes automatically (through `close_with_no_args` when `close`
/// takes more than the wrapper), else it is only reported.
pub open spec fn drop_impl_text(w: CWrapper) -> Seq<char> {
    let closes = methods_named(w.methods@, "close"@);
    if closes.len() == 1 && !has_init_method(w.methods@) {
        let call = if closes[0].arguments@.len() > 1 {
            "close_with_no_args"@
        } else {
            closes[0].struct_method_name@
        };
        let c = w.class_name@;
        "impl Drop for "@ + c
            + " { fn drop(&mut self) { if let Some(inner) = self.inner.as_owned() { if (inner.cleanup.is_none()) && std::rc::Rc::strong_count(inner) == 1 && !inner.is_closed_already_called() { if inner.auto_close.get() { log::info!(\"auto closing {}\", stringify!("@
            + c + ")); let result = self."@ + call
            + "(); log::debug!(\"result {:?}\", result); } else { #[cfg(feature = \"extra-logging\")] log::warn!(\"{} not closed\", stringify!("@
            + c + ")); } } } } }\n"@
    } else {
        Seq::empty()
    }
}

/// The crate-level lint allowances and alias that head the generated code
/// when the common code is included.
pub open spec fn warning_code_text(include_common_code: bool, include_clippy: bool, include_aeron_client_registering_resource_t: bool) -> Seq<char> {
    if !include_common_code {
        Seq::empty()
    } else {
        (if include_clippy {
            "#![allow(non_upper_case_globals)]\n#![allow(non_camel_case_types)]\n#![allow(non_snake_case)]\n#![allow(clippy::all)]\n#![allow(unused_variables)]\n#![allow(unused_unsafe)]\n"@
        } else {
            Seq::empty()
        }) + (if include_aeron_client_registering_resource_t {
            "type aeron_client_registering_resource_t = aeron_client_registering_resource_stct;\n"@
        } else {
            Seq::empty()
        })
    }
}

/// See `warning_code_text`.
pub fn warning_code(include_common_code: bool, include_clippy: bool, include_aeron_client_registering_resource_t: bool) -> (r: String)
    ensures
        r@ == warning_code_text(include_common_code, include_clippy, include_aeron_client_registering_resource_t),
{
    let mut out = String::new();
    if include_common_code {
        if include_clippy {
            push_str(&mut out, "#![allow(non_upper_case_globals)]\n#![allow(non_camel_case_types)]\n#![allow(non_snake_case)]\n#![allow(clippy::all)]\n#![allow(unused_variables)]\n#![allow(unused_unsafe)]\n");
        }
        if include_aeron_client_registering_resource_t {
            push_str(&mut out, "type aeron_client_registering_resource_t = aeron_client_registering_resource_stct;\n");
        }
    }
    assert(out@ =~= warning_code_text(include_common_code, include_clippy, include_aeron_client_registering_resource_t));
    out
}

impl CWrapper {
    /// The `Drop` of this wrapper's class (see `drop_impl_text`).
    pub fn drop_impl_code(&self) -> (r: String)
        ensures
            r@ == drop_impl_text(*self),
    {
        let close = self.find_unique_method("close");
        proof {
            reveal_strlit("close");
        }
        let mut has_init = false;
        let mut i: usize = 0;
        while i < self.methods.len()
            invariant
                i <= self.methods@.len(),
                has_init == exists|k: int| 0 <= k < i && seq_contains_seq((#[trigger] self.methods@[k]).fn_name@, "_init"@),
            decreases self.methods@.len() - i,
        {
            if str_contains(self.methods[i].fn_name.as_str(), "_init") {
                has_init = true;
            }
            i += 1;
        }
        match close {
            Some(m) => {
                if has_init {
                    return String::new();
                }
                let c = self.class_name.as_str();
                let ghost closes = methods_named(self.methods@, "close"@);
                assert(m.arguments@.map_values(|x: Arg| arg_name_type(x)).len() == m.arguments@.len());
                assert(closes[0].arguments@.map_values(|x: Arg| arg_name_type(x)).len() == closes[0].arguments@.len());
                assert(m.arguments@.len() == closes[0].arguments@.len());
                assert(!has_init_method(self.methods@));
                let mut out = String::new();
                push_str(&mut out, "impl Drop for ");
                push_str(&mut out, c);
                push_str(&mut out, " { fn drop(&mut self) { if let Some(inner) = self.inner.as_owned() { if (inner.cleanup.is_none()) && std::rc::Rc::strong_count(inner) == 1 && !inner.is_closed_already_called() { if inner.auto_close.get() { log::info!(\"auto closing {}\", stringify!(");
                push_str(&mut out, c);
                push_str(&mut out, ")); let result = self.");
                if m.arguments.len() > 1 {
                    push_str(&mut out, "close_with_no_args");
                } else {
                    push_str(&mut out, m.struct_method_name.as_str());
                }
                push_str(&mut out, "(); log::debug!(\"result {:?}\", result); } else { #[cfg(feature = \"extra-logging\")] log::warn!(\"{} not closed\", stringify!(");
                push_str(&mut out, c);
                push_str(&mut out, ")); } } } } }\n");
                assert(out@ =~= drop_impl_text(*self));
                out
            },
            None => String::new(),
        }
    }
}

/// The pointer-and-length pair of a slice argument.
fn slice_parts(array: &str, length: &str, cast: &str, include_field_name: bool) -> (r: String)
    ensures
        r@ == slice_parts_text(array@, length@, cast@, include_field_name),
{
    let mut out = String::new();
    if include_field_name {
        push_str(&mut out, array);
        push_str(&mut out, ": ");
    }
    push_str(&mut out, array);
    push_str(&mut out, ".as_ptr() as ");
    push_str(&mut out, cast);
    push_str(&mut out, ", ");
    if include_field_name {
        push_str(&mut out, length);
        push_str(&mut out, ": ");
    }
    push_str(&mut out, array);
    push_str(&mut out, ".len()");
    assert(out@ =~= slice_parts_text(array@, length@, cast@, include_field_name));
    out
}

/// See `rs_to_c_return_text`.
pub(crate) fn rs_to_c_text(a: &Arg, result: &str, include_field_name: bool) -> (r: String)
    requires
        rs_to_c_needs_pair(*a) ==> processing_members(a.processing).len() >= 2,
    ensures
        r@ == rs_to_c_return_text(*a, result@, include_field_name),
{
    match &a.processing {
        ArgProcessing::Handler(hc) => {
            if a.is_mut_pointer() {
                return String::new();
            }
            let h = hc[0].name.as_str();
            let ct = hc[0].c_type.as_str();
            let p = snake_to_pascal_case(a.c_type.as_str());
            let mut out = String::new();
            if include_field_name {
                push_str(&mut out, h);
                push_str(&mut out, ": ");
            }
            push_str(&mut out, "{ let callback: ");
            push_str(&mut out, ct);
            push_str(&mut out, " = if ");
            push_str(&mut out, h);
            push_str(&mut out, ".is_none() { None } else { Some(");
            push_str(&mut out, ct);
            push_str(&mut out, "_callback::<");
            push_str(&mut out, p.as_str());
            push_str(&mut out, "HandlerImpl");
            push_str(&mut out, ">) }; callback }");
            push_str(&mut out, ", ");
            if include_field_name {
                push_str(&mut out, hc[1].name.as_str());
                push_str(&mut out, ": ");
            }
            push_str(&mut out, h);
            push_str(&mut out, ".map(|m| m.as_raw()).unwrap_or_else(|| std::ptr::null_mut())");
            assert(out@ =~= rs_to_c_return_text(*a, result@, include_field_name));
            out
        },
        ArgProcessing::StringWithLength(hc) => {
            if a.is_c_string() {
                return String::new();
            }
            slice_parts(hc[0].name.as_str(), hc[1].name.as_str(), "*const _", include_field_name)
        },
        ArgProcessing::ByteArrayWithLength(hc) => {
            if a.is_byte_array() {
                return String::new();
            }
            slice_parts(hc[0].name.as_str(), hc[1].name.as_str(), "*mut _", include_field_name)
        },
        ArgProcessing::Default => {
            let single_primitive = a.is_single_mut_pointer() && a.is_primitive();
            let mut out = String::new();
            if include_field_name {
                push_str(&mut out, a.name.as_str());
                push_str(&mut out, ": ");
                push_str(&mut out, result);
                if a.is_c_string() {
                    push_str(&mut out, ".as_ptr()");
                } else if single_primitive {
                    push_str(&mut out, " as *mut _");
                } else {
                    push_str(&mut out, ".into()");
                }
            } else {
                push_str(&mut out, result);
                if single_primitive {
                    push_str(&mut out, " as *mut _");
                } else if a.is_c_string() {
                    push_str(&mut out, ".as_ptr()");
                } else {
                    push_str(&mut out, ".into()");
                }
            }
            assert(out@ =~= rs_to_c_return_text(*a, result@, include_field_name));
            out
        },
    }
}

/// See `c_slice_text`.
fn c_slice(star: &str, length: &str, use_self: bool, mutable: bool) -> (r: String)
    ensures
        r@ == c_slice_text(star@, length@, if use_self { "self."@ } else { Seq::empty() }, mutable),
{
    let me = if use_self { "self." } else { "" };
    proof {
        broadcast use vstd::string::group_string_axioms;
        reveal_strlit("");
    }
    let ghost m = if use_self { "self."@ } else { Seq::<char>::empty() };
    assert(me@ == m);
    let mut out = String::new();
    if mutable {
        push_str(&mut out, "unsafe { if ");
    } else {
        push_str(&mut out, "if ");
    }
    push_str(&mut out, me);
    push_str(&mut out, star);
    if mutable {
        push_str(&mut out, ".is_null() { &mut [] as &mut [_] } else { std::slice::from_raw_parts_mut(");
    } else {
        push_str(&mut out, ".is_null() { &[] as &[_] } else { std::slice::from_raw_parts(");
    }
    push_str(&mut out, me);
    push_str(&mut out, star);
    push_str(&mut out, ", ");
    push_str(&mut out, me);
    push_str(&mut out, length);
    if mutable {
        push_str(&mut out, ".try_into().unwrap()) } }");
    } else {
        push_str(&mut out, ") }");
    }
    assert(out@ =~= c_slice_text(star@, length@, m, mutable));
    out
}

/// See `c_to_rs_return_text`.
pub(crate) fn c_to_rs_text(a: &Arg, result: &str, convert_errors: bool, use_self: bool) -> (r: String)
    requires
        c_to_rs_needs_pair(*a) ==> processing_members(a.processing).len() >= 2,
    ensures
        r@ == c_to_rs_return_text(*a, result@, convert_errors, use_self),
{
    let mut length_of_string: Option<&str> = None;
    match &a.processing {
        ArgProcessing::StringWithLength(args) => {
            if !a.is_c_string_any() {
                return String::new();
            }
            if a.is_c_string() {
                length_of_string = Some(args[1].name.as_str());
            }
        },
        ArgProcessing::ByteArrayWithLength(args) => {
            if !a.is_byte_array() {
                return String::new();
            }
            return c_slice(args[0].name.as_str(), args[1].name.as_str(), use_self, a.is_mut_byte_array());
        },
        _ => {},
    }
    if convert_errors && a.is_c_raw_int() {
        return owned("if result < 0 { return Err(AeronCError::from_code(result)); } else { return Ok(result) }");
    }
    let mut out = String::new();
    if a.is_c_string() {
        push_str(&mut out, "if ");
        push_str(&mut out, result);
        match length_of_string {
            Some(len) => {
                push_str(&mut out, ".is_null() { \"\" } else { std::str::from_utf8_unchecked(std::slice::from_raw_parts(");
                push_str(&mut out, result);
                push_str(&mut out, " as *const u8, ");
                push_str(&mut out, len);
                push_str(&mut out, ".try_into().unwrap())) }");
            },
            None => {
                push_str(&mut out, ".is_null() { \"\" } else { unsafe { std::ffi::CStr::from_ptr(");
                push_str(&mut out, result);
                push_str(&mut out, ").to_str().unwrap() } }");
            },
        }
    } else if a.is_single_mut_pointer() && a.is_primitive() {
        push_str(&mut out, "unsafe { &mut *");
        push_str(&mut out, result);
        push_str(&mut out, " }");
    } else {
        push_str(&mut out, result);
        push_str(&mut out, ".into()");
    }
    assert(out@ =~= c_to_rs_return_text(*a, result@, convert_errors, use_self));
    out
}

} // verus!
