use vstd::prelude::*;

use crate::constructor::{concat_all, concat_text, constructors_complete, constructors_text, kept_fields_text, CtorList};
use crate::fields::{debug_fields_text, fields_complete, getters_text};
use crate::generator::{
    drop_impl_text, join, join_text, methods_bindable, methods_bindings_text, spec_has_default_method,
    warning_code, warning_code_text, CWrapper,
};
use crate::handlers::{doc_attrs, doc_attrs_text};
use crate::bindings::CHandler;
use crate::once::handlers_complete;
use crate::async_code::{async_complete, async_impls_text};
use crate::text::push_str;

verus! {

/// The class struct: the managed C resource and the kept arguments.
pub open spec fn struct_text(class: Seq<char>, c_type: Seq<char>, kept: Seq<char>) -> Seq<char> {
    "#[derive(Clone)]\npub struct "@ + class + " { inner: CResource<"@ + c_type + ">, "@ + kept + " }\n"@
}

/// The class's `Debug`: `null` for a null resource, else the resource and
/// the shown fields.
pub open spec fn debug_impl_text(class: Seq<char>, shown: Seq<char>) -> Seq<char> {
    "impl core::fmt::Debug for "@ + class
        + " { fn fmt(&self, f: &mut std::fmt::Formatter<'_>) -> std::fmt::Result { if self.inner.get().is_null() { f.debug_struct(stringify!("@
        + class + ")).field(\"inner\", &\"null\").finish() } else { f.debug_struct(stringify!("@ + class
        + ")).field(\"inner\", &self.inner)"@ + shown + ".finish() } } }\n"@
}

/// The accessors of the C struct behind a class.
pub open spec fn accessors_text(c_type: Seq<char>) -> Seq<char> {
    "#[inline(always)]\npub fn get_inner(&self) -> *mut "@ + c_type
        + " { self.inner.get() }\n#[inline(always)]\npub fn get_inner_mut(&self) -> &mut "@ + c_type
        + " { unsafe { &mut *self.inner.get() } }\n#[inline(always)]\npub fn get_inner_ref(&self) -> &"@ + c_type
        + " { unsafe { &*self.inner.get() } }\n"@
}

/// `Deref` to the C struct and the conversions between the class and the
/// C struct or pointers to it (borrowed, keeping no arguments).
pub open spec fn conversions_text(class: Seq<char>, c_type: Seq<char>, kept_none: Seq<char>) -> Seq<char> {
    "impl std::ops::Deref for "@ + class + " { type Target = "@ + c_type
        + "; fn deref(&self) -> &Self::Target { self.get_inner_ref() } }\nimpl From<*mut "@ + c_type + "> for "@ + class
        + " { #[inline] fn from(value: *mut "@ + c_type + ") -> Self { "@ + class + " { inner: CResource::Borrowed(value), "@
        + kept_none + " } } }\nimpl From<"@ + class + "> for *mut "@ + c_type + " { #[inline] fn from(value: "@ + class
        + ") -> Self { value.get_inner() } }\nimpl From<&"@ + class + "> for *mut "@ + c_type + " { #[inline] fn from(value: &"@
        + class + ") -> Self { value.get_inner() } }\nimpl From<"@ + class + "> for "@ + c_type + " { #[inline] fn from(value: "@
        + class + ") -> Self { unsafe { *value.get_inner().clone() } } }\nimpl From<*const "@ + c_type + "> for "@ + class
        + " { #[inline] fn from(value: *const "@ + c_type + ") -> Self { "@ + class
        + " { inner: CResource::Borrowed(value as *mut "@ + c_type + "), "@ + kept_none + " } } }\nimpl From<"@ + c_type
        + "> for "@ + class + " { #[inline] fn from(mut value: "@ + c_type + ") -> Self { "@ + class
        + " { inner: CResource::Borrowed(&mut value as *mut "@ + c_type + "), "@ + kept_none + " } } }\n"@
}

/// The zeroed `Default` of a class and its shallow struct copy.
pub open spec fn default_impl_text(class: Seq<char>) -> Seq<char> {
    "/// This will create an instance where the struct is zeroed, use with care\nimpl Default for "@ + class
        + " { fn default() -> Self { "@ + class + "::new_zeroed_on_heap() } }\nimpl "@ + class
        + " {\n/// Regular clone just increases the reference count of underlying count.\n/// `clone_struct` shallow copies the content of the underlying struct on heap.\n///\n/// NOTE: if the struct has references to other structs these will not be copied\n///\n/// Must be only used on structs which has no init/clean up methods.\n/// So its danagerous to use with Aeron/AeronContext/AeronPublication/AeronSubscription\n/// More intended for AeronArchiveRecordingDescriptor\npub fn clone_struct(&self) -> Self { let copy = Self::default(); copy.get_inner_mut().clone_from(self.deref()); copy } }\n"@
}

/// The code of a wrapper class: the lint header, the documented struct with
/// its `Debug`, an impl with its constructors, field getters, method
/// bindings (their one-shot variants taking the callback types `hs` of the
/// bindings) and accessors, the conversions, its `Drop`, the impls of an
/// asynchronous operation, its `Default` when it gets a default constructor
/// and has constructors, and the common code when it is included.
pub open spec fn class_code_text(
    w: CWrapper,
    ws: Seq<CWrapper>,
    hs: Seq<CHandler>,
    class_docs: Seq<Seq<char>>,
    common_code: Seq<char>,
    include_common_code: bool,
    include_clippy: bool,
    include_aeron_client_registering_resource_t: bool,
) -> Seq<char> {
    let class = w.class_name@;
    let t = w.c_type_name@;
    let ctors = constructors_text(w, ws);
    warning_code_text(include_common_code, include_clippy, include_aeron_client_registering_resource_t)
        + doc_attrs_text(class_docs) + struct_text(class, t, concat_text(kept_fields_text(CtorList::KeptFields, w, ws)))
        + debug_impl_text(class, concat_text(debug_fields_text(w, w.fields@, ws))) + "impl "@ + class + " {\n"@
        + concat_text(ctors) + join_text(getters_text(w, w.fields@, ws), "\n"@) + "\n"@ + join_text(
        methods_bindings_text(t, w.methods@, ws, hs),
        "\n"@,
    ) + "\n"@ + accessors_text(t) + "}\n"@ + conversions_text(
        class,
        t,
        concat_text(kept_fields_text(CtorList::KeptNone, w, ws)),
    ) + drop_impl_text(w) + async_impls_text(w, ws) + (if spec_has_default_method(w) && has_nonempty(ctors) {
        default_impl_text(class)
    } else {
        Seq::empty()
    }) + (if include_common_code {
        common_code
    } else {
        Seq::empty()
    })
}

/// Everything the code of a wrapper class reads is there.
pub open spec fn class_complete(w: CWrapper, ws: Seq<CWrapper>) -> bool {
    &&& constructors_complete(w, ws)
    &&& fields_complete(w.fields@)
    &&& methods_bindable(w.c_type_name@, w.methods@, ws)
    &&& async_complete(w, ws)
}

/// See `struct_text`.
fn struct_code(class: &str, c_type: &str, kept: &str) -> (r: String)
    ensures
        r@ == struct_text(class@, c_type@, kept@),
{
    let mut out = String::new();
    push_str(&mut out, "#[derive(Clone)]\npub struct ");
    push_str(&mut out, class);
    push_str(&mut out, " { inner: CResource<");
    push_str(&mut out, c_type);
    push_str(&mut out, ">, ");
    push_str(&mut out, kept);
    push_str(&mut out, " }\n");
    assert(out@ =~= struct_text(class@, c_type@, kept@));
    out
}

/// See `debug_impl_text`.
fn debug_impl_code(class: &str, shown: &str) -> (r: String)
    ensures
        r@ == debug_impl_text(class@, shown@),
{
    let mut out = String::new();
    push_str(&mut out, "impl core::fmt::Debug for ");
    push_str(&mut out, class);
    push_str(&mut out, " { fn fmt(&self, f: &mut std::fmt::Formatter<'_>) -> std::fmt::Result { if self.inner.get().is_null() { f.debug_struct(stringify!(");
    push_str(&mut out, class);
    push_str(&mut out, ")).field(\"inner\", &\"null\").finish() } else { f.debug_struct(stringify!(");
    push_str(&mut out, class);
    push_str(&mut out, ")).field(\"inner\", &self.inner)");
    push_str(&mut out, shown);
    push_str(&mut out, ".finish() } } }\n");
    assert(out@ =~= debug_impl_text(class@, shown@));
    out
}

/// See `accessors_text`.
fn accessors_code(c_type: &str) -> (r: String)
    ensures
        r@ == accessors_text(c_type@),
{
    let mut out = String::new();
    push_str(&mut out, "#[inline(always)]\npub fn get_inner(&self) -> *mut ");
    push_str(&mut out, c_type);
    push_str(&mut out, " { self.inner.get() }\n#[inline(always)]\npub fn get_inner_mut(&self) -> &mut ");
    push_str(&mut out, c_type);
    push_str(&mut out, " { unsafe { &mut *self.inner.get() } }\n#[inline(always)]\npub fn get_inner_ref(&self) -> &");
    push_str(&mut out, c_type);
    push_str(&mut out, " { unsafe { &*self.inner.get() } }\n");
    assert(out@ =~= accessors_text(c_type@));
    out
}

/// See `conversions_text`.
fn conversions_code(class: &str, c_type: &str, kept_none: &str) -> (r: String)
    ensures
        r@ == conversions_text(class@, c_type@, kept_none@),
{
    let mut out = String::new();
    push_str(&mut out, "impl std::ops::Deref for ");
    push_str(&mut out, class);
    push_str(&mut out, " { type Target = ");
    push_str(&mut out, c_type);
    push_str(&mut out, "; fn deref(&self) -> &Self::Target { self.get_inner_ref() } }\nimpl From<*mut ");
    push_str(&mut out, c_type);
    push_str(&mut out, "> for ");
    push_str(&mut out, class);
    push_str(&mut out, " { #[inline] fn from(value: *mut ");
    push_str(&mut out, c_type);
    push_str(&mut out, ") -> Self { ");
    push_str(&mut out, class);
    push_str(&mut out, " { inner: CResource::Borrowed(value), ");
    push_str(&mut out, kept_none);
    push_str(&mut out, " } } }\nimpl From<");
    push_str(&mut out, class);
    push_str(&mut out, "> for *mut ");
    push_str(&mut out, c_type);
    push_str(&mut out, " { #[inline] fn from(value: ");
    push_str(&mut out, class);
    push_str(&mut out, ") -> Self { value.get_inner() } }\nimpl From<&");
    push_str(&mut out, class);
    push_str(&mut out, "> for *mut ");
    push_str(&mut out, c_type);
    push_str(&mut out, " { #[inline] fn from(value: &");
    push_str(&mut out, class);
    push_str(&mut out, ") -> Self { value.get_inner() } }\nimpl From<");
    push_str(&mut out, class);
    push_str(&mut out, "> for ");
    push_str(&mut out, c_type);
    push_str(&mut out, " { #[inline] fn from(value: ");
    push_str(&mut out, class);
    push_str(&mut out, ") -> Self { unsafe { *value.get_inner().clone() } } }\nimpl From<*const ");
    push_str(&mut out, c_type);
    push_str(&mut out, "> for ");
    push_str(&mut out, class);
    push_str(&mut out, " { #[inline] fn from(value: *const ");
    push_str(&mut out, c_type);
    push_str(&mut out, ") -> Self { ");
    push_str(&mut out, class);
    push_str(&mut out, " { inner: CResource::Borrowed(value as *mut ");
    push_str(&mut out, c_type);
    push_str(&mut out, "), ");
    push_str(&mut out, kept_none);
    push_str(&mut out, " } } }\nimpl From<");
    push_str(&mut out, c_type);
    push_str(&mut out, "> for ");
    push_str(&mut out, class);
    push_str(&mut out, " { #[inline] fn from(mut value: ");
    push_str(&mut out, c_type);
    push_str(&mut out, ") -> Self { ");
    push_str(&mut out, class);
    push_str(&mut out, " { inner: CResource::Borrowed(&mut value as *mut ");
    push_str(&mut out, c_type);
    push_str(&mut out, "), ");
    push_str(&mut out, kept_none);
    push_str(&mut out, " } } }\n");
    assert(out@ =~= conversions_text(class@, c_type@, kept_none@));
    out
}

/// See `default_impl_text`.
fn default_impl_code(class: &str) -> (r: String)
    ensures
        r@ == default_impl_text(class@),
{
    let mut out = String::new();
    push_str(&mut out, "/// This will create an instance where the struct is zeroed, use with care\nimpl Default for ");
    push_str(&mut out, class);
    push_str(&mut out, " { fn default() -> Self { ");
    push_str(&mut out, class);
    push_str(&mut out, "::new_zeroed_on_heap() } }\nimpl ");
    push_str(&mut out, class);
    push_str(&mut out, " {\n/// Regular clone just increases the reference count of underlying count.\n/// `clone_struct` shallow copies the content of the underlying struct on heap.\n///\n/// NOTE: if the struct has references to other structs these will not be copied\n///\n/// Must be only used on structs which has no init/clean up methods.\n/// So its danagerous to use with Aeron/AeronContext/AeronPublication/AeronSubscription\n/// More intended for AeronArchiveRecordingDescriptor\npub fn clone_struct(&self) -> Self { let copy = Self::default(); copy.get_inner_mut().clone_from(self.deref()); copy } }\n");
    assert(out@ =~= default_impl_text(class@));
    out
}

/// Some text of the list is not empty.
pub open spec fn has_nonempty(parts: Seq<Seq<char>>) -> bool {
    exists|i: int| 0 <= i < parts.len() && (#[trigger] parts[i]).len() > 0
}

/// Some text of the list is not empty.
fn any_nonempty(parts: &Vec<String>) -> (r: bool)
    ensures
        r == has_nonempty(parts@.map_values(|p: String| p@)),
{
    let ghost views = parts@.map_values(|p: String| p@);
    let mut i: usize = 0;
    while i < parts.len()
        invariant
            i <= parts@.len(),
            views == parts@.map_values(|p: String| p@),
            forall|k: int| 0 <= k < i ==> (#[trigger] views[k]).len() == 0,
        decreases parts@.len() - i,
    {
        if parts[i].as_str().unicode_len() > 0 {
            assert(views[i as int].len() > 0);
            return true;
        }
        i += 1;
    }
    false
}

/// The code of a wrapper class (see `class_code_text`), documented by the
/// wrapper's documentation texts, with the common code to include.
pub fn generate_class_code(
    wrapper: &CWrapper,
    wrappers: &[CWrapper],
    closure_handlers: &Vec<CHandler>,
    common_code: &str,
    include_common_code: bool,
    include_clippy: bool,
    include_aeron_client_registering_resource_t: bool,
) -> (r: String)
    requires
        class_complete(*wrapper, wrappers@),
        handlers_complete(closure_handlers@),
    ensures
        r@ == class_code_text(
            *wrapper,
            wrappers@,
            closure_handlers@,
            wrapper.docs@.map_values(|l: String| l@),
            common_code@,
            include_common_code,
            include_clippy,
            include_aeron_client_registering_resource_t,
        ),
{
    let class = wrapper.class_name.as_str();
    let t = wrapper.c_type_name.as_str();
    let (ctors, kept, kept_none) = wrapper.generate_constructor(wrappers);
    let (getters, shown) = wrapper.generate_fields(wrappers);
    let methods = wrapper.bind_methods(wrappers, closure_handlers);
    let mut out = warning_code(include_common_code, include_clippy, include_aeron_client_registering_resource_t);
    let ghost p0 = out@;
    let docs = doc_attrs(wrapper.docs.as_slice());
    push_str(&mut out, docs.as_str());
    let s = struct_code(class, t, concat_all(&kept).as_str());
    push_str(&mut out, s.as_str());
    let d = debug_impl_code(class, concat_all(&shown).as_str());
    push_str(&mut out, d.as_str());
    let ghost p1 = out@;
    push_str(&mut out, "impl ");
    push_str(&mut out, class);
    push_str(&mut out, " {\n");
    let c = concat_all(&ctors);
    push_str(&mut out, c.as_str());
    let g = join(&getters, "\n");
    push_str(&mut out, g.as_str());
    push_str(&mut out, "\n");
    let m = join(&methods, "\n");
    push_str(&mut out, m.as_str());
    push_str(&mut out, "\n");
    let a = accessors_code(t);
    push_str(&mut out, a.as_str());
    push_str(&mut out, "}\n");
    let ghost p2 = out@;
    let conv = conversions_code(class, t, concat_all(&kept_none).as_str());
    push_str(&mut out, conv.as_str());
    let dr = wrapper.drop_impl_code();
    push_str(&mut out, dr.as_str());
    let ai = wrapper.generate_async_impls(wrappers);
    push_str(&mut out, ai.as_str());
    if wrapper.has_default_method() && any_nonempty(&ctors) {
        let di = default_impl_code(class);
        push_str(&mut out, di.as_str());
    }
    if include_common_code {
        push_str(&mut out, common_code);
    }
    assert(out@ =~= class_code_text(
        *wrapper,
        wrappers@,
        closure_handlers@,
        wrapper.docs@.map_values(|l: String| l@),
        common_code@,
        include_common_code,
        include_clippy,
        include_aeron_client_registering_resource_t,
    ));
    out
}

} // verus!
