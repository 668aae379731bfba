use vstd::prelude::*;

use crate::bindings::{last_word, last_word_of, replace_all, replace_all_str};
use crate::constructor::{concat_all, concat_text};
use crate::generator::{
    bound_needs_handler, find_wrapper, join, join_text, new_return_type_text, new_type_text,
    processing_members, rs_to_c_needs_pair, rs_to_c_return_text, rs_to_c_text, where_clause,
    where_clause_text, wrapper_for, Arg, CWrapper, Method,
};
use crate::parser::{get_possible_wrappers, possible_wrappers};
use crate::text::{concat2, concat3, owned, push_str, seq_starts_with, str_eq, str_starts_with};

verus! {

/// A wrapper of an asynchronous operation of the C API.
pub open spec fn is_async_type(c_type: Seq<char>) -> bool {
    seq_starts_with(c_type, "aeron_async_"@) || seq_starts_with(c_type, "aeron_archive_async_"@)
}

/// The first method, from `from` on, whose C function is `name`.
pub open spec fn method_called(ms: Seq<Method>, name: Seq<char>, from: int) -> Option<int>
    decreases ms.len() - from,
{
    if from < 0 || from >= ms.len() {
        None
    } else if ms[from].fn_name@ == name {
        Some(from)
    } else {
        method_called(ms, name, from + 1)
    }
}

/// The wrapper of the first candidate type name, from `from` on, that has one.
pub open spec fn first_wrapped(cands: Seq<Seq<char>>, ws: Seq<CWrapper>, from: int) -> Option<int>
    decreases cands.len() - from,
{
    if from < 0 || from >= cands.len() {
        None
    } else if wrapper_for(ws, cands[from]) is Some {
        wrapper_for(ws, cands[from])
    } else {
        first_wrapped(cands, ws, from + 1)
    }
}

/// The C type of what an asynchronous operation makes.
pub open spec fn main_type_of(c_type: Seq<char>) -> Seq<char> {
    replace_all(replace_all(c_type, "_async_"@, "_"@), "_add_"@, "_"@)
}

/// The lists of text the asynchronous impls are assembled from.
#[derive(Clone, Copy, PartialEq, Eq, Structural)]
pub enum AsyncList {
    /// The arguments of a C call: the resource slot, then the converted values.
    CallArgs,
    /// The parameters after the first, with their Rust types.
    Params,
    /// The names of the parameters from the third on.
    LaterNames,
    /// The client dependencies the operation keeps alive.
    Dependencies,
}

/// The entry of argument `a`, at position `idx`, in the list `which`.
pub open spec fn async_item_text(which: AsyncList, a: Arg, idx: int, ws: Seq<CWrapper>) -> Seq<char> {
    let t = new_return_type_text(a, ws, false, true);
    match which {
        AsyncList::CallArgs => if idx == 0 { "ctx_field"@ } else { rs_to_c_return_text(a, a.name@, false) },
        AsyncList::Params => if idx == 0 || t.len() == 0 { Seq::empty() } else { a.name@ + ": "@ + t },
        AsyncList::LaterNames => if idx < 2 || new_return_type_text(a, ws, false, false).len() == 0 {
            Seq::empty()
        } else {
            a.name@
        },
        AsyncList::Dependencies => if idx > 0 && t.len() > 0 && (seq_starts_with(t, "Aeron"@) || seq_starts_with(t, "&Aeron"@)) {
            "result.inner.add_dependency("@ + a.name@ + ".clone()); "@
        } else {
            Seq::empty()
        },
    }
}

/// The non-empty entries of the arguments in the list `which`, in order.
pub open spec fn async_list_text(which: AsyncList, args: Seq<Arg>, ws: Seq<CWrapper>) -> Seq<Seq<char>>
    decreases args.len(),
{
    if args.len() == 0 {
        Seq::empty()
    } else {
        let rest = async_list_text(which, args.drop_last(), ws);
        let t = async_item_text(which, args.last(), args.len() - 1, ws);
        if t.len() == 0 { rest } else { rest.push(t) }
    }
}

/// The parts after the first (none when there are none).
pub open spec fn tail_of(parts: Seq<Seq<char>>) -> Seq<Seq<char>> {
    if parts.len() == 0 { parts } else { parts.skip(1) }
}

/// `, p` for each part.
pub open spec fn leading_commas_text(parts: Seq<Seq<char>>) -> Seq<char>
    decreases parts.len(),
{
    if parts.len() == 0 { Seq::empty() } else { leading_commas_text(parts.drop_last()) + ", "@ + parts.last() }
}

/// The `poll` and `poll_blocking` of an asynchronous operation making `main`.
pub open spec fn poll_methods_text(main: Seq<char>) -> Seq<char> {
    "pub fn poll(&self) -> Result<Option<"@ + main + ">, AeronCError> { let mut result = "@ + main
        + "::new(self); if let Ok(result) = &mut result { unsafe { for d in (&mut *self.inner.as_owned().unwrap().dependencies.get()).iter_mut() { result.inner.add_dependency(d.clone()); } result.inner.as_owned().unwrap().auto_close.set(true); } } match result { Ok(result) => Ok(Some(result)), Err(AeronCError { code }) if code == 0 => { Ok(None) } Err(e) => Err(e) } }\npub fn poll_blocking(&self, timeout: std::time::Duration) -> Result<"@
        + main
        + ", AeronCError> { if let Some(result) = self.poll()? { return Ok(result); } let time = std::time::Instant::now(); while time.elapsed() < timeout { if let Some(result) = self.poll()? { return Ok(result); } #[cfg(debug_assertions)] std::thread::sleep(std::time::Duration::from_millis(10)); } log::error!(\"failed async poll for {:?}\", self); Err(AeronErrorType::TimedOut.into()) }\n"@
}

/// The blocking client method that retries the operation until it completes
/// or the timeout passes.
pub open spec fn blocking_method_text(client: Seq<char>, name: Seq<char>, where_text: Seq<char>, params: Seq<Seq<char>>, main: Seq<char>, async_class: Seq<char>, names: Seq<char>) -> Seq<char> {
    "impl "@ + client + " {\n#[inline]\npub fn "@ + name + where_text + "(&self"@ + leading_commas_text(params)
        + ", timeout: std::time::Duration) -> Result<"@ + main
        + ", AeronCError> { let start = std::time::Instant::now(); loop { if let Ok(poller) = "@ + async_class
        + "::new(self, "@ + names
        + ") { while start.elapsed() <= timeout { if let Some(result) = poller.poll()? { return Ok(result); } #[cfg(debug_assertions)] std::thread::sleep(std::time::Duration::from_millis(10)); } } if start.elapsed() > timeout { log::error!(\"failed async poll for {:?}\", self); return Err(AeronErrorType::TimedOut.into()); } #[cfg(debug_assertions)] std::thread::sleep(std::time::Duration::from_millis(10)); } } }\n"@
}

/// The impls of an asynchronous operation's wrapper: `new` of what it makes
/// (from the poll function), the client's starting and blocking methods, and
/// the operation's own `new`, `poll` and `poll_blocking`. Empty for other
/// wrappers and for an operation without a start function.
pub open spec fn async_impls_text(w: CWrapper, ws: Seq<CWrapper>) -> Seq<char> {
    let t = w.c_type_name@;
    if !is_async_type(t) || method_called(w.methods@, w.without_name@, 0) is None {
        Seq::empty()
    } else {
        let new_m = w.methods@[method_called(w.methods@, w.without_name@, 0)->0];
        let main = ws[first_wrapped(possible_wrappers(main_type_of(t)), ws, 0)->0];
        let poll = main.methods@[method_called(main.methods@, w.without_name@ + "_poll"@, 0)->0];
        let client = ws[wrapper_for(ws, last_word(new_m.arguments@[1].c_type@))->0];
        let cm = replace_all(new_m.fn_name@, client.without_name@ + "_"@, Seq::empty());
        let params = async_list_text(AsyncList::Params, new_m.arguments@, ws);
        let client_params = tail_of(params);
        let names = join_text(async_list_text(AsyncList::LaterNames, new_m.arguments@, ws), ", "@);
        let mc = main.class_name@;
        let ac = w.class_name@;
        let wa = where_clause_text(new_m.arguments@);
        "impl "@ + mc + " {\n#[inline]\npub fn new"@ + where_clause_text(poll.arguments@) + "("@ + join_text(
            async_list_text(AsyncList::Params, poll.arguments@, ws),
            ", "@,
        ) + ") -> Result<Self, AeronCError> { let resource = ManagedCResource::new(move |ctx_field| unsafe { "@
            + w.without_name@ + "_poll("@ + join_text(async_list_text(AsyncList::CallArgs, poll.arguments@, ws), ", "@)
            + ") }, None, false, None, )?; Ok(Self { inner: CResource::OwnedOnHeap(std::rc::Rc::new(resource)), }) } }\nimpl "@
            + client.class_name@ + " {\n#[inline]\npub fn "@ + cm + wa + "(&self, "@ + join_text(client_params, ", "@)
            + ") -> Result<"@ + ac + ", AeronCError> { let mut result = "@ + ac + "::new(self, "@ + names
            + "); if let Ok(result) = &mut result { result.inner.add_dependency(self.clone()); } result } }\n"@
            + blocking_method_text(client.class_name@, replace_all(cm, "async_"@, Seq::empty()), wa, client_params, mc, ac, names)
            + "impl "@ + ac + " {\n#[inline]\npub fn new"@ + wa + "("@ + join_text(params, ", "@)
            + ") -> Result<Self, AeronCError> { let resource_async = ManagedCResource::new(move |ctx_field| unsafe { "@
            + new_m.fn_name@ + "("@ + join_text(async_list_text(AsyncList::CallArgs, new_m.arguments@, ws), ", "@)
            + ") }, None, false, None, )?; let result = Self { inner: CResource::OwnedOnHeap(std::rc::Rc::new(resource_async)), }; "@
            + concat_text(async_list_text(AsyncList::Dependencies, new_m.arguments@, ws)) + "Ok(result) }\n"@
            + poll_methods_text(mc) + "}\n"@
    }
}

/// The arguments convert and name their handler types as the impls need.
pub open spec fn async_args_complete(args: Seq<Arg>) -> bool {
    &&& forall|k: int| 0 <= k < args.len() ==> rs_to_c_needs_pair(#[trigger] args[k]) ==> processing_members(args[k].processing).len() >= 2
    &&& forall|k: int| 0 <= k < args.len() ==> bound_needs_handler(#[trigger] args[k]) ==> processing_members(args[k].processing).len() >= 1
}

/// What the impls of an asynchronous operation read is there: the wrapper
/// of what it makes, that wrapper's poll function, a client argument whose
/// wrapper is known, and complete arguments.
pub open spec fn async_complete(w: CWrapper, ws: Seq<CWrapper>) -> bool {
    let t = w.c_type_name@;
    (is_async_type(t) && method_called(w.methods@, w.without_name@, 0) is Some) ==> {
        let new_m = w.methods@[method_called(w.methods@, w.without_name@, 0)->0];
        let mi = first_wrapped(possible_wrappers(main_type_of(t)), ws, 0);
        &&& mi is Some
        &&& method_called(ws[mi->0].methods@, w.without_name@ + "_poll"@, 0) is Some
        &&& new_m.arguments@.len() >= 2
        &&& wrapper_for(ws, last_word(new_m.arguments@[1].c_type@)) is Some
        &&& async_args_complete(new_m.arguments@)
        &&& async_args_complete(ws[mi->0].methods@[method_called(ws[mi->0].methods@, w.without_name@ + "_poll"@, 0)->0].arguments@)
    }
}

/// See `method_called`.
fn find_method_called(ms: &Vec<Method>, name: &str) -> (r: Option<usize>)
    ensures
        match method_called(ms@, name@, 0) {
            Some(k) => r matches Some(j) && j == k,
            None => r is None,
        },
        r matches Some(j) ==> j < ms@.len(),
{
    let mut i: usize = 0;
    while i < ms.len()
        invariant
            i <= ms@.len(),
            method_called(ms@, name@, 0) == method_called(ms@, name@, i as int),
        decreases ms@.len() - i,
    {
        if str_eq(ms[i].fn_name.as_str(), name) {
            return Some(i);
        }
        i += 1;
    }
    None
}

/// See `first_wrapped`.
fn find_first_wrapped(cands: &Vec<String>, ws: &[CWrapper]) -> (r: Option<usize>)
    ensures
        match first_wrapped(cands@.map_values(|c: String| c@), ws@, 0) {
            Some(k) => r matches Some(j) && j == k,
            None => r is None,
        },
        r matches Some(j) ==> j < ws@.len(),
{
    let ghost views = cands@.map_values(|c: String| c@);
    let mut i: usize = 0;
    while i < cands.len()
        invariant
            i <= cands@.len(),
            views == cands@.map_values(|c: String| c@),
            first_wrapped(views, ws@, 0) == first_wrapped(views, ws@, i as int),
        decreases cands@.len() - i,
    {
        match find_wrapper(ws, cands[i].as_str()) {
            Some(j) => {
                return Some(j);
            },
            None => {},
        }
        i += 1;
    }
    None
}

/// See `async_item_text`.
fn async_item(which: AsyncList, a: &Arg, idx: usize, ws: &[CWrapper]) -> (r: String)
    requires
        rs_to_c_needs_pair(*a) ==> processing_members(a.processing).len() >= 2,
    ensures
        r@ == async_item_text(which, *a, idx as int, ws@),
{
    let t = new_type_text(a, ws, false, true);
    let empty_t = t.as_str().unicode_len() == 0;
    match which {
        AsyncList::CallArgs => if idx == 0 { owned("ctx_field") } else { rs_to_c_text(a, a.name.as_str(), false) },
        AsyncList::Params => if idx == 0 || empty_t { String::new() } else { concat3(a.name.as_str(), ": ", t.as_str()) },
        AsyncList::LaterNames => {
            if idx < 2 || new_type_text(a, ws, false, false).as_str().unicode_len() == 0 {
                String::new()
            } else {
                a.name.clone()
            }
        },
        AsyncList::Dependencies => {
            if idx > 0 && !empty_t && (str_starts_with(t.as_str(), "Aeron") || str_starts_with(t.as_str(), "&Aeron")) {
                concat3("result.inner.add_dependency(", a.name.as_str(), ".clone()); ")
            } else {
                String::new()
            }
        },
    }
}

/// See `async_list_text`.
fn async_list(which: AsyncList, args: &Vec<Arg>, ws: &[CWrapper]) -> (r: Vec<String>)
    requires
        async_args_complete(args@),
    ensures
        r@.map_values(|p: String| p@) == async_list_text(which, args@, ws@),
{
    let mut out: Vec<String> = Vec::new();
    let mut i: usize = 0;
    while i < args.len()
        invariant
            i <= args@.len(),
            async_args_complete(args@),
            out@.map_values(|p: String| p@) == async_list_text(which, args@.take(i as int), ws@),
        decreases args@.len() - i,
    {
        let ghost before = out@;
        let t = async_item(which, &args[i], i, ws);
        if t.as_str().unicode_len() > 0 {
            out.push(t);
        }
        proof {
            let tk = args@.take(i + 1);
            assert(tk.drop_last() =~= args@.take(i as int));
            assert(tk.last() == args@[i as int]);
            assert(out@.map_values(|p: String| p@) =~= if async_item_text(which, args@[i as int], i as int, ws@).len() == 0 {
                before.map_values(|p: String| p@)
            } else {
                before.map_values(|p: String| p@).push(async_item_text(which, args@[i as int], i as int, ws@))
            });
        }
        i += 1;
    }
    assert(args@.take(args@.len() as int) =~= args@);
    out
}

/// See `tail_of`.
fn tail(parts: &Vec<String>) -> (r: Vec<String>)
    ensures
        r@.map_values(|p: String| p@) == tail_of(parts@.map_values(|p: String| p@)),
{
    let ghost views = parts@.map_values(|p: String| p@);
    let mut out: Vec<String> = Vec::new();
    if parts.len() == 0 {
        assert(out@.map_values(|p: String| p@) =~= views);
        return out;
    }
    let mut i: usize = 1;
    while i < parts.len()
        invariant
            1 <= i <= parts@.len(),
            views == parts@.map_values(|p: String| p@),
            out@.map_values(|p: String| p@) =~= views.subrange(1, i as int),
        decreases parts@.len() - i,
    {
        let ghost before = out@;
        let c = parts[i].clone();
        assert(c@ == views[i as int]);
        out.push(c);
        assert(out@ == before.push(c));
        assert(out@.map_values(|p: String| p@) =~= before.map_values(|p: String| p@).push(c@));
        assert(views.subrange(1, i + 1) =~= views.subrange(1, i as int).push(views[i as int]));
        i += 1;
    }
    out
}

/// See `leading_commas_text`.
fn leading_commas(parts: &Vec<String>) -> (r: String)
    ensures
        r@ == leading_commas_text(parts@.map_values(|p: String| p@)),
{
    let ghost views = parts@.map_values(|p: String| p@);
    let mut out = String::new();
    let mut i: usize = 0;
    while i < parts.len()
        invariant
            i <= parts@.len(),
            views == parts@.map_values(|p: String| p@),
            out@ == leading_commas_text(views.take(i as int)),
        decreases parts@.len() - i,
    {
        push_str(&mut out, ", ");
        push_str(&mut out, parts[i].as_str());
        proof {
            let t = views.take(i + 1);
            assert(t.drop_last() =~= views.take(i as int));
            assert(t.last() == parts@[i as int]@);
        }
        i += 1;
    }
    assert(views.take(parts@.len() as int) =~= views);
    out
}

/// See `poll_methods_text`.
fn poll_methods(main: &str) -> (r: String)
    ensures
        r@ == poll_methods_text(main@),
{
    let mut out = String::new();
    push_str(&mut out, "pub fn poll(&self) -> Result<Option<");
    push_str(&mut out, main);
    push_str(&mut out, ">, AeronCError> { let mut result = ");
    push_str(&mut out, main);
    push_str(&mut out, "::new(self); if let Ok(result) = &mut result { unsafe { for d in (&mut *self.inner.as_owned().unwrap().dependencies.get()).iter_mut() { result.inner.add_dependency(d.clone()); } result.inner.as_owned().unwrap().auto_close.set(true); } } match result { Ok(result) => Ok(Some(result)), Err(AeronCError { code }) if code == 0 => { Ok(None) } Err(e) => Err(e) } }\npub fn poll_blocking(&self, timeout: std::time::Duration) -> Result<");
    push_str(&mut out, main);
    push_str(&mut out, ", AeronCError> { if let Some(result) = self.poll()? { return Ok(result); } let time = std::time::Instant::now(); while time.elapsed() < timeout { if let Some(result) = self.poll()? { return Ok(result); } #[cfg(debug_assertions)] std::thread::sleep(std::time::Duration::from_millis(10)); } log::error!(\"failed async poll for {:?}\", self); Err(AeronErrorType::TimedOut.into()) }\n");
    assert(out@ =~= poll_methods_text(main@));
    out
}

/// See `blocking_method_text`.
fn blocking_method(client: &str, name: &str, where_text: &str, params: &Vec<String>, main: &str, async_class: &str, names: &str) -> (r: String)
    ensures
        r@ == blocking_method_text(client@, name@, where_text@, params@.map_values(|p: String| p@), main@, async_class@, names@),
{
    let commas = leading_commas(params);
    let mut out = String::new();
    push_str(&mut out, "impl ");
    push_str(&mut out, client);
    push_str(&mut out, " {\n#[inline]\npub fn ");
    push_str(&mut out, name);
    push_str(&mut out, where_text);
    push_str(&mut out, "(&self");
    push_str(&mut out, commas.as_str());
    push_str(&mut out, ", timeout: std::time::Duration) -> Result<");
    push_str(&mut out, main);
    push_str(&mut out, ", AeronCError> { let start = std::time::Instant::now(); loop { if let Ok(poller) = ");
    push_str(&mut out, async_class);
    push_str(&mut out, "::new(self, ");
    push_str(&mut out, names);
    push_str(&mut out, ") { while start.elapsed() <= timeout { if let Some(result) = poller.poll()? { return Ok(result); } #[cfg(debug_assertions)] std::thread::sleep(std::time::Duration::from_millis(10)); } } if start.elapsed() > timeout { log::error!(\"failed async poll for {:?}\", self); return Err(AeronErrorType::TimedOut.into()); } #[cfg(debug_assertions)] std::thread::sleep(std::time::Duration::from_millis(10)); } } }\n");
    assert(out@ =~= blocking_method_text(client@, name@, where_text@, params@.map_values(|p: String| p@), main@, async_class@, names@));
    out
}

impl CWrapper {
    /// The impls of this wrapper when it is an asynchronous operation (see
    /// `async_impls_text`).
    pub fn generate_async_impls(&self, wrappers: &[CWrapper]) -> (r: String)
        requires
            async_complete(*self, wrappers@),
        ensures
            r@ == async_impls_text(*self, wrappers@),
    {
        let t = self.c_type_name.as_str();
        if !(str_starts_with(t, "aeron_async_") || str_starts_with(t, "aeron_archive_async_")) {
            return String::new();
        }
        let ni = match find_method_called(&self.methods, self.without_name.as_str()) {
            Some(i) => i,
            None => return String::new(),
        };
        let new_m = &self.methods[ni];
        let main_type = replace_all_str(replace_all_str(t, "_async_", "_").as_str(), "_add_", "_");
        let cands = get_possible_wrappers(main_type.as_str());
        let mi = match find_first_wrapped(&cands, wrappers) {
            Some(i) => i,
            None => return String::new(),
        };
        let main = &wrappers[mi];
        let poll_name = concat2(self.without_name.as_str(), "_poll");
        let pi = match find_method_called(&main.methods, poll_name.as_str()) {
            Some(i) => i,
            None => return String::new(),
        };
        let poll = &main.methods[pi];
        let client_key = last_word_of(new_m.arguments[1].c_type.as_str());
        let ci = match find_wrapper(wrappers, client_key.as_str()) {
            Some(i) => i,
            None => return String::new(),
        };
        let client = &wrappers[ci];
        let prefix = concat2(client.without_name.as_str(), "_");
        let cm = replace_all_str(new_m.fn_name.as_str(), prefix.as_str(), "");
        let cm2 = replace_all_str(cm.as_str(), "async_", "");
        proof {
            reveal_strlit("");
            assert(""@ =~= Seq::<char>::empty());
        }
        let params = async_list(AsyncList::Params, &new_m.arguments, wrappers);
        let client_params = tail(&params);
        let names = join(&async_list(AsyncList::LaterNames, &new_m.arguments, wrappers), ", ");
        let mc = main.class_name.as_str();
        let ac = self.class_name.as_str();
        let wa = where_clause(&new_m.arguments);
        let wp = where_clause(&poll.arguments);
        let mut out = String::new();
        push_str(&mut out, "impl ");
        push_str(&mut out, mc);
        push_str(&mut out, " {\n#[inline]\npub fn new");
        push_str(&mut out, wp.as_str());
        push_str(&mut out, "(");
        push_str(&mut out, join(&async_list(AsyncList::Params, &poll.arguments, wrappers), ", ").as_str());
        push_str(&mut out, ") -> Result<Self, AeronCError> { let resource = ManagedCResource::new(move |ctx_field| unsafe { ");
        push_str(&mut out, self.without_name.as_str());
        push_str(&mut out, "_poll(");
        push_str(&mut out, join(&async_list(AsyncList::CallArgs, &poll.arguments, wrappers), ", ").as_str());
        push_str(&mut out, ") }, None, false, None, )?; Ok(Self { inner: CResource::OwnedOnHeap(std::rc::Rc::new(resource)), }) } }\nimpl ");
        push_str(&mut out, client.class_name.as_str());
        push_str(&mut out, " {\n#[inline]\npub fn ");
        push_str(&mut out, cm.as_str());
        push_str(&mut out, wa.as_str());
        push_str(&mut out, "(&self, ");
        push_str(&mut out, join(&client_params, ", ").as_str());
        push_str(&mut out, ") -> Result<");
        push_str(&mut out, ac);
        push_str(&mut out, ", AeronCError> { let mut result = ");
        push_str(&mut out, ac);
        push_str(&mut out, "::new(self, ");
        push_str(&mut out, names.as_str());
        push_str(&mut out, "); if let Ok(result) = &mut result { result.inner.add_dependency(self.clone()); } result } }\n");
        let ghost mid = out@;
        let b = blocking_method(client.class_name.as_str(), cm2.as_str(), wa.as_str(), &client_params, mc, ac, names.as_str());
        push_str(&mut out, b.as_str());
        push_str(&mut out, "impl ");
        push_str(&mut out, ac);
        push_str(&mut out, " {\n#[inline]\npub fn new");
        push_str(&mut out, wa.as_str());
        push_str(&mut out, "(");
        push_str(&mut out, join(&params, ", ").as_str());
        push_str(&mut out, ") -> Result<Self, AeronCError> { let resource_async = ManagedCResource::new(move |ctx_field| unsafe { ");
        push_str(&mut out, new_m.fn_name.as_str());
        push_str(&mut out, "(");
        push_str(&mut out, join(&async_list(AsyncList::CallArgs, &new_m.arguments, wrappers), ", ").as_str());
        push_str(&mut out, ") }, None, false, None, )?; let result = Self { inner: CResource::OwnedOnHeap(std::rc::Rc::new(resource_async)), }; ");
        push_str(&mut out, concat_all(&async_list(AsyncList::Dependencies, &new_m.arguments, wrappers)).as_str());
        push_str(&mut out, "Ok(result) }\n");
        push_str(&mut out, poll_methods(mc).as_str());
        push_str(&mut out, "}\n");
        assert(out@ =~= async_impls_text(*self, wrappers@));
        out
    }
}

} // verus!
