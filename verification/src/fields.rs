use vstd::prelude::*;

use crate::bindings::replace_all;
use crate::generator::{
    arg_same, c_to_rs_needs_pair, c_to_rs_return_text, c_to_rs_text, find_wrapper, new_return_type_text,
    new_type_text, processing_kind, processing_members, wrapper_for, Arg, ArgProcessing, CWrapper,
    ProcessingKind,
};
use crate::text::{concat2, push_str, seq_starts_with, str_eq, str_starts_with};

verus! {

/// `b` is field `a` as its getter reads it: a mutable C string is read as a
/// constant one.
pub open spec fn read_as(a: Arg, b: Arg) -> bool {
    &&& b.name@ == a.name@
    &&& b.c_type@ == (if a.spec_is_mut_c_string() {
        replace_all(a.c_type@, " mut "@, " const "@)
    } else {
        a.c_type@
    })
    &&& processing_kind(b.processing) == processing_kind(a.processing)
    &&& processing_members(b.processing) == processing_members(a.processing)
}

/// `c` is `b` taken on its own, without its grouping.
pub open spec fn ungrouped(b: Arg, c: Arg) -> bool {
    &&& c.name@ == b.name@
    &&& c.c_type@ == b.c_type@
    &&& c.processing is Default
}

/// The getter of a field read as `c`, and the entry it adds to `Debug`
/// (empty when it adds none).
pub open spec fn getter_of(c: Arg, ws: Seq<CWrapper>) -> (Seq<char>, Seq<char>) {
    let getter = "#[inline]\npub fn "@ + c.name@ + "(&self) -> "@ + new_return_type_text(c, ws, false, false) + " { "@
        + c_to_rs_return_text(c, "self."@ + c.name@, false, true) + " }"@;
    let shown = (c.spec_is_primitive() || c.spec_is_c_string() || c.spec_is_mut_c_string() || c.spec_is_byte_array()
        || wrapper_for(ws, c.c_type@) is Some) && !(seq_starts_with(c.c_type@, "* const"@) || seq_starts_with(
        c.c_type@,
        "* mut"@,
    ));
    (getter, if shown {
        ".field(stringify!("@ + c.name@ + "), &self."@ + c.name@ + "())"@
    } else {
        Seq::empty()
    })
}

/// The getter of field `a` (see `getter_of`): read as `read_as` says, and
/// taken without its grouping when that gives no type or groups a callback.
pub open spec fn field_getter(a: Arg, ws: Seq<CWrapper>) -> (Seq<char>, Seq<char>) {
    let b = choose|b: Arg| read_as(a, b);
    if new_return_type_text(b, ws, false, false).len() == 0 || processing_kind(b.processing) == ProcessingKind::Handler {
        getter_of(choose|c: Arg| ungrouped(b, c), ws)
    } else {
        getter_of(b, ws)
    }
}

/// A field gets a getter unless it is private (a leading `_`) or a method
/// has its name.
pub open spec fn has_getter(w: CWrapper, a: Arg) -> bool {
    !seq_starts_with(a.name@, "_"@) && !exists|k: int| 0 <= k < w.methods@.len()
        && (#[trigger] w.methods@[k]).struct_method_name@ == a.name@
}

/// The getters of the wrapper's fields, in order.
pub open spec fn getters_text(w: CWrapper, fs: Seq<Arg>, ws: Seq<CWrapper>) -> Seq<Seq<char>>
    decreases fs.len(),
{
    if fs.len() == 0 {
        Seq::empty()
    } else if has_getter(w, fs.last()) {
        getters_text(w, fs.drop_last(), ws).push(field_getter(fs.last(), ws).0)
    } else {
        getters_text(w, fs.drop_last(), ws)
    }
}

/// The `Debug` entries of the wrapper's fields, in order.
pub open spec fn debug_fields_text(w: CWrapper, fs: Seq<Arg>, ws: Seq<CWrapper>) -> Seq<Seq<char>>
    decreases fs.len(),
{
    if fs.len() == 0 {
        Seq::empty()
    } else if has_getter(w, fs.last()) && field_getter(fs.last(), ws).1.len() > 0 {
        debug_fields_text(w, fs.drop_last(), ws).push(field_getter(fs.last(), ws).1)
    } else {
        debug_fields_text(w, fs.drop_last(), ws)
    }
}

/// A grouping of a string or a byte array with its length.
pub open spec fn is_slice_grouping(a: Arg) -> bool {
    processing_kind(a.processing) == ProcessingKind::StringWithLength || processing_kind(a.processing)
        == ProcessingKind::ByteArrayWithLength
}

/// The string and byte array groupings of the fields hold both of their
/// arguments, which their getters read.
pub open spec fn fields_complete(fs: Seq<Arg>) -> bool {
    forall|k: int| 0 <= k < fs.len() ==> is_slice_grouping(#[trigger] fs[k]) ==> processing_members(fs[k].processing).len() >= 2
}

/// Two arguments that agree on what the texts read give the same getter.
proof fn lemma_getter_congruent(c1: Arg, c2: Arg, ws: Seq<CWrapper>)
    requires
        arg_same(c1, c2),
    ensures
        getter_of(c1, ws) == getter_of(c2, ws),
        new_return_type_text(c1, ws, false, false) == new_return_type_text(c2, ws, false, false),
{
}

/// See `read_as`.
fn read_field(a: &Arg) -> (b: Arg)
    ensures
        read_as(*a, b),
{
    let c_type = if a.is_mut_c_string() {
        crate::bindings::replace_all_str(a.c_type.as_str(), " mut ", " const ")
    } else {
        a.c_type.clone()
    };
    Arg { name: a.name.clone(), c_type, processing: a.processing.clone() }
}

/// See `ungrouped`.
fn ungroup(b: &Arg) -> (c: Arg)
    ensures
        ungrouped(*b, c),
{
    Arg { name: b.name.clone(), c_type: b.c_type.clone(), processing: ArgProcessing::Default }
}

/// See `getter_of`.
fn getter_code(c: &Arg, ws: &[CWrapper]) -> (r: (String, String))
    requires
        c_to_rs_needs_pair(*c) ==> processing_members(c.processing).len() >= 2,
    ensures
        (r.0@, r.1@) == getter_of(*c, ws@),
{
    let field = concat2("self.", c.name.as_str());
    let t = new_type_text(c, ws, false, false);
    let conv = c_to_rs_text(c, field.as_str(), false, true);
    let mut getter = String::new();
    push_str(&mut getter, "#[inline]\npub fn ");
    push_str(&mut getter, c.name.as_str());
    push_str(&mut getter, "(&self) -> ");
    push_str(&mut getter, t.as_str());
    push_str(&mut getter, " { ");
    push_str(&mut getter, conv.as_str());
    push_str(&mut getter, " }");
    let shown = (c.is_primitive() || c.is_c_string_any() || c.is_byte_array() || find_wrapper(ws, c.c_type.as_str()).is_some())
        && !c.is_any_pointer();
    let mut debug = String::new();
    if shown {
        push_str(&mut debug, ".field(stringify!(");
        push_str(&mut debug, c.name.as_str());
        push_str(&mut debug, "), &self.");
        push_str(&mut debug, c.name.as_str());
        push_str(&mut debug, "())");
    }
    assert(getter@ =~= getter_of(*c, ws@).0);
    assert(debug@ =~= getter_of(*c, ws@).1);
    (getter, debug)
}

/// See `field_getter`.
fn field_getter_code(a: &Arg, ws: &[CWrapper]) -> (r: (String, String))
    requires
        is_slice_grouping(*a) ==> processing_members(a.processing).len() >= 2,
    ensures
        (r.0@, r.1@) == field_getter(*a, ws@),
{
    let b = read_field(a);
    let ghost bb = choose|x: Arg| read_as(*a, x);
    proof {
        assert(read_as(*a, bb));
        lemma_getter_congruent(b, bb, ws@);
    }
    let t = new_type_text(&b, ws, false, false);
    let handler = match &b.processing {
        ArgProcessing::Handler(_) => true,
        _ => false,
    };
    if t.as_str().unicode_len() == 0 || handler {
        let c = ungroup(&b);
        let ghost cc = choose|x: Arg| ungrouped(bb, x);
        proof {
            assert(ungrouped(bb, c));
            assert(ungrouped(bb, cc));
            lemma_getter_congruent(c, cc, ws@);
        }
        getter_code(&c, ws)
    } else {
        getter_code(&b, ws)
    }
}

impl CWrapper {
    /// The getters of this wrapper's fields and the entries they add to the
    /// class's `Debug` (see `getters_text` and `debug_fields_text`).
    pub fn generate_fields(&self, wrappers: &[CWrapper]) -> (r: (Vec<String>, Vec<String>))
        requires
            fields_complete(self.fields@),
        ensures
            r.0@.map_values(|p: String| p@) == getters_text(*self, self.fields@, wrappers@),
            r.1@.map_values(|p: String| p@) == debug_fields_text(*self, self.fields@, wrappers@),
    {
        let mut getters: Vec<String> = Vec::new();
        let mut debug: Vec<String> = Vec::new();
        let mut i: usize = 0;
        while i < self.fields.len()
            invariant
                i <= self.fields@.len(),
                fields_complete(self.fields@),
                getters@.map_values(|p: String| p@) == getters_text(*self, self.fields@.take(i as int), wrappers@),
                debug@.map_values(|p: String| p@) == debug_fields_text(*self, self.fields@.take(i as int), wrappers@),
            decreases self.fields@.len() - i,
        {
            let a = &self.fields[i];
            let ghost g0 = getters@;
            let ghost d0 = debug@;
            let mut named_by_method = false;
            let mut k: usize = 0;
            while k < self.methods.len()
                invariant
                    k <= self.methods@.len(),
                    named_by_method == exists|j: int| 0 <= j < k && (#[trigger] self.methods@[j]).struct_method_name@ == a.name@,
                decreases self.methods@.len() - k,
            {
                if str_eq(self.methods[k].struct_method_name.as_str(), a.name.as_str()) {
                    named_by_method = true;
                }
                k += 1;
            }
            if !str_starts_with(a.name.as_str(), "_") && !named_by_method {
                let (g, d) = field_getter_code(a, wrappers);
                getters.push(g);
                if d.as_str().unicode_len() > 0 {
                    debug.push(d);
                }
            }
            proof {
                let t = self.fields@.take(i + 1);
                assert(t.drop_last() =~= self.fields@.take(i as int));
                assert(t.last() == self.fields@[i as int]);
                let fa = self.fields@[i as int];
                if has_getter(*self, fa) {
                    assert(getters@.map_values(|p: String| p@) =~= g0.map_values(|p: String| p@).push(field_getter(fa, wrappers@).0));
                    if field_getter(fa, wrappers@).1.len() > 0 {
                        assert(debug@.map_values(|p: String| p@) =~= d0.map_values(|p: String| p@).push(field_getter(fa, wrappers@).1));
                    } else {
                        assert(debug@.map_values(|p: String| p@) =~= d0.map_values(|p: String| p@));
                    }
                } else {
                    assert(getters@.map_values(|p: String| p@) =~= g0.map_values(|p: String| p@));
                    assert(debug@.map_values(|p: String| p@) =~= d0.map_values(|p: String| p@));
                }
            }
            i += 1;
        }
        assert(self.fields@.take(self.fields@.len() as int) =~= self.fields@);
        (getters, debug)
    }
}

} // verus!
