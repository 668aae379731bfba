use vstd::prelude::*;

use crate::generator::{
    arg_name_type, processing_kind, processing_members, Arg, ArgProcessing, ProcessingKind,
};
use crate::text::{
    chars_of, push_char, push_str, seq_ends_with, seq_starts_with, str_ends_with, str_eq,
    str_starts_with, string_from_chars,
};

verus! {

/// A length-like integer type text.
pub open spec fn is_int_type(t: Seq<char>) -> bool {
    t == "usize"@ || t == "i32"@
}

/// `name` names the length of an argument called `prev_name`.
pub open spec fn is_length_field(name: Seq<char>, prev_name: Seq<char>) -> bool {
    name == "length"@ || name == "len"@ || (seq_ends_with(name, "_length"@) && seq_starts_with(
        name,
        prev_name,
    ))
}

/// How two neighbouring arguments (name and type each) are grouped, if at all:
/// a callback type followed by a `clientd` pointer, a C string followed by its
/// length, or a byte array followed by its length.
pub open spec fn pair_kind(p1: (Seq<char>, Seq<char>), p2: (Seq<char>, Seq<char>)) -> Option<
    ProcessingKind,
> {
    let is_int = is_int_type(p2.1);
    let length_field = is_length_field(p2.0, p1.0);
    if p2.1 == Arg::C_VOID@ && !seq_starts_with(p1.1, Arg::STAR_MUT@) && seq_ends_with(
        p1.1,
        "_t"@,
    ) {
        Some(ProcessingKind::Handler)
    } else if (p1.1 == Arg::C_CHAR_STR@ || p1.1 == Arg::C_MUT_CHAR_STR@) && !seq_starts_with(
        p1.1,
        Arg::STAR_MUT@,
    ) && is_int && length_field {
        Some(ProcessingKind::StringWithLength)
    } else if (p1.1 == Arg::C_BYTE_ARRAY@ || p1.1 == Arg::C_BYTE_MUT_ARRAY@) && is_int
        && length_field {
        Some(ProcessingKind::ByteArrayWithLength)
    } else {
        None
    }
}

/// The grouping of argument `j` once the neighbouring pairs `(k - 1, k)` for
/// `1 <= k < limit` have been examined in order: a later pair overrides an
/// earlier one, and an argument in no grouped pair keeps its grouping.
/// The result is the grouping kind and the grouped members.
pub open spec fn grouping_after(
    orig: Seq<Arg>,
    limit: int,
    j: int,
) -> (ProcessingKind, Seq<(Seq<char>, Seq<char>)>) {
    let nt = orig.map_values(|a: Arg| arg_name_type(a));
    if j + 1 < limit && pair_kind(nt[j], nt[j + 1]) is Some {
        (pair_kind(nt[j], nt[j + 1])->0, seq![nt[j], nt[j + 1]])
    } else if 1 <= j < limit && pair_kind(nt[j - 1], nt[j]) is Some {
        (pair_kind(nt[j - 1], nt[j])->0, seq![nt[j - 1], nt[j]])
    } else {
        (processing_kind(orig[j].processing), processing_members(orig[j].processing))
    }
}

fn pair_grouping(p1: &Arg, p2: &Arg) -> (r: Option<ProcessingKind>)
    ensures
        r == pair_kind(arg_name_type(*p1), arg_name_type(*p2)),
{
    let is_int = str_eq(p2.c_type.as_str(), "usize") || str_eq(p2.c_type.as_str(), "i32");
    let length_field = str_eq(p2.name.as_str(), "length") || str_eq(p2.name.as_str(), "len") || (
    str_ends_with(p2.name.as_str(), "_length") && str_starts_with(
        p2.name.as_str(),
        p1.name.as_str(),
    ));
    if p2.is_c_void() && !p1.is_mut_pointer() && str_ends_with(p1.c_type.as_str(), "_t") {
        Some(ProcessingKind::Handler)
    } else if p1.is_c_string_any() && !p1.is_mut_pointer() && is_int && length_field {
        Some(ProcessingKind::StringWithLength)
    } else if p1.is_byte_array() && is_int && length_field {
        Some(ProcessingKind::ByteArrayWithLength)
    } else {
        None
    }
}

fn make_processing(kind: ProcessingKind, p1: &Arg, p2: &Arg) -> (r: ArgProcessing)
    requires
        !(kind is Default),
    ensures
        processing_kind(r) == kind,
        processing_members(r) == seq![arg_name_type(*p1), arg_name_type(*p2)],
{
    let mut members: Vec<Arg> = Vec::new();
    members.push(p1.clone());
    members.push(p2.clone());
    proof {
        assert(members@.map_values(|a: Arg| arg_name_type(a)) =~= seq![
            arg_name_type(*p1),
            arg_name_type(*p2),
        ]);
    }
    match kind {
        ProcessingKind::Handler => ArgProcessing::Handler(members),
        ProcessingKind::StringWithLength => ArgProcessing::StringWithLength(members),
        ProcessingKind::ByteArrayWithLength => ArgProcessing::ByteArrayWithLength(members),
        ProcessingKind::Default => ArgProcessing::Default,
    }
}

/// Marks neighbouring arguments that belong together: a callback with its
/// `clientd`, a C string with its length, a byte array with its length. Both
/// members of such a pair get the grouping; a later pair overrides an earlier
/// one for the argument they share. Names and types are unchanged.
pub fn process_types(name_and_type: Vec<Arg>) -> (r: Vec<Arg>)
    ensures
        r@.len() == name_and_type@.len(),
        forall|j: int|
            0 <= j < r@.len() ==> arg_name_type(#[trigger] r@[j]) == arg_name_type(
                name_and_type@[j],
            ),
        forall|j: int|
            0 <= j < r@.len() ==> (processing_kind(#[trigger] r@[j].processing), processing_members(
                r@[j].processing,
            )) == grouping_after(name_and_type@, name_and_type@.len() as int, j),
{
    let ghost orig = name_and_type@;
    let ghost nt = orig.map_values(|a: Arg| arg_name_type(a));
    let mut v = name_and_type;
    let n = v.len();
    if n < 2 {
        return v;
    }
    let mut i: usize = 1;
    while i < n
        invariant
            1 <= i <= n == v@.len() == orig.len(),
            nt == orig.map_values(|a: Arg| arg_name_type(a)),
            forall|j: int| 0 <= j < n ==> arg_name_type(#[trigger] v@[j]) == nt[j],
            forall|j: int|
                0 <= j < n ==> (processing_kind(#[trigger] v@[j].processing), processing_members(
                    v@[j].processing,
                )) == grouping_after(orig, i as int, j),
        decreases n - i,
    {
        let kind = pair_grouping(&v[i - 1], &v[i]);
        proof {
            assert(arg_name_type(v@[i - 1]) == nt[i - 1]);
            assert(arg_name_type(v@[i as int]) == nt[i as int]);
        }
        let ghost before = v@;
        match kind {
            Some(k) => {
                let p1 = make_processing(k, &v[i - 1], &v[i]);
                let p2 = make_processing(k, &v[i - 1], &v[i]);
                v[i - 1].processing = p1;
                v[i].processing = p2;
                proof {
                    assert forall|j: int| 0 <= j < n implies arg_name_type(#[trigger] v@[j])
                        == nt[j] by {
                        if j != i - 1 && j != i {
                            assert(v@[j] == before[j]);
                        }
                    }
                    assert forall|j: int| 0 <= j < n implies (processing_kind(
                        #[trigger] v@[j].processing,
                    ), processing_members(v@[j].processing)) == grouping_after(
                        orig,
                        i + 1,
                        j,
                    ) by {
                        if j != i - 1 && j != i {
                            assert(v@[j] == before[j]);
                        }
                    }
                }
            },
            None => {
                proof {
                    assert forall|j: int| 0 <= j < n implies (processing_kind(
                        #[trigger] v@[j].processing,
                    ), processing_members(v@[j].processing)) == grouping_after(
                        orig,
                        i + 1,
                        j,
                    ) by {
                        assert(grouping_after(orig, i as int, j) == grouping_after(
                            orig,
                            i + 1,
                            j,
                        ));
                    }
                }
            },
        }
        i += 1;
    }
    v
}


/// The candidate wrapper type names for a C function name: every prefix that
/// ends just before an underscore, with `_t` appended, the longest first.
pub open spec fn possible_wrappers(s: Seq<char>) -> Seq<Seq<char>>
    decreases s.len(),
{
    if s.len() == 0 {
        seq![]
    } else if s.last() == '_' {
        seq![s.drop_last() + "_t"@] + possible_wrappers(s.drop_last())
    } else {
        possible_wrappers(s.drop_last())
    }
}

/// Lists the wrapper type names a C function may belong to, longest prefix
/// first (`aeron_image_poll` gives `aeron_image_t`, then `aeron_t`).
pub fn get_possible_wrappers(fn_name: &str) -> (r: Vec<String>)
    ensures
        r@.map_values(|x: String| x@) == possible_wrappers(fn_name@),
{
    let cs = chars_of(fn_name);
    let n = cs.len();
    let mut out: Vec<String> = Vec::new();
    let mut i = n;
    proof {
        assert(cs@.take(n as int) =~= cs@);
    }
    while i > 0
        invariant
            i <= n == cs@.len(),
            cs@ == fn_name@,
            possible_wrappers(cs@) == out@.map_values(|x: String| x@) + possible_wrappers(
                cs@.take(i as int),
            ),
        decreases i,
    {
        let ghost pre = cs@.take(i as int);
        assert(pre.drop_last() =~= cs@.take(i - 1));
        if cs[i - 1] == '_' {
            let mut w = string_from_chars(cs.as_slice(), i - 1);
            push_str(&mut w, "_t");
            let ghost old_out = out@;
            out.push(w);
            proof {
                assert(w@ == cs@.take(i - 1) + "_t"@);
                assert(out@.map_values(|x: String| x@) =~= old_out.map_values(|x: String| x@).push(
                    w@,
                ));
                assert(possible_wrappers(pre) == seq![pre.drop_last() + "_t"@] + possible_wrappers(
                    pre.drop_last(),
                ));
                assert(old_out.map_values(|x: String| x@).push(w@) + possible_wrappers(
                    cs@.take(i - 1),
                ) =~= old_out.map_values(|x: String| x@) + (seq![w@] + possible_wrappers(
                    cs@.take(i - 1),
                )));
            }
        }
        i -= 1;
    }
    proof {
        assert(cs@.take(0) =~= Seq::<char>::empty());
        assert(out@.map_values(|x: String| x@) + possible_wrappers(Seq::<char>::empty())
            =~= out@.map_values(|x: String| x@));
    }
    out
}

/// What `char::to_uppercase` yields for a character.
pub uninterp spec fn uppercase_of(c: char) -> Seq<char>;

/// Upper-cases a character (`char::to_uppercase`), collecting the characters
/// it yields. Lower-case ASCII letters map to their capitals, other ASCII
/// characters to themselves; for the rest the result is named, not stated.
#[verifier::external_body]
fn char_to_uppercase(c: char) -> (r: Vec<char>)
    ensures
        r@ == uppercase_of(c),
        'a' <= c <= 'z' ==> r@ == seq![((c as u32) - 32) as char],
        (c as u32) < 128 && !('a' <= c <= 'z') ==> r@ == seq![c],
{
    c.to_uppercase().collect()
}

/// The pieces of `s` between underscores (an empty string has one empty piece).
pub open spec fn split_underscore(s: Seq<char>) -> Seq<Seq<char>>
    decreases s.len(),
{
    if s.len() == 0 {
        seq![Seq::<char>::empty()]
    } else if s.last() == '_' {
        split_underscore(s.drop_last()).push(Seq::<char>::empty())
    } else {
        let w = split_underscore(s.drop_last());
        w.update(w.len() - 1, w.last().push(s.last()))
    }
}

/// The upper case of a character: an ASCII lower-case letter becomes its
/// capital, any other ASCII character stays, and beyond ASCII it is what
/// `char::to_uppercase` yields.
pub open spec fn upper_char(c: char) -> Seq<char> {
    if 'a' <= c <= 'z' {
        seq![((c as u32) - 32) as char]
    } else if (c as u32) < 128 {
        seq![c]
    } else {
        uppercase_of(c)
    }
}

/// A word with its first character upper-cased.
pub open spec fn capitalize(w: Seq<char>) -> Seq<char> {
    if w.len() == 0 {
        w
    } else {
        upper_char(w[0]) + w.drop_first()
    }
}

/// The capitalized words joined, leaving out every word `on`.
pub open spec fn join_capitalized(ws: Seq<Seq<char>>) -> Seq<char>
    decreases ws.len(),
{
    if ws.len() == 0 {
        seq![]
    } else if ws.last() == "on"@ {
        join_capitalized(ws.drop_last())
    } else {
        join_capitalized(ws.drop_last()) + capitalize(ws.last())
    }
}

/// A snake-case C type name without its `_t` suffix, if it has one.
pub open spec fn strip_type_suffix(s: Seq<char>) -> Seq<char> {
    if seq_ends_with(s, "_t"@) {
        s.subrange(0, s.len() - 2)
    } else {
        s
    }
}

/// The PascalCase class name of a snake-case C type name.
pub open spec fn pascal_case(s: Seq<char>) -> Seq<char> {
    join_capitalized(split_underscore(strip_type_suffix(s)))
}

proof fn lemma_split_nonempty(s: Seq<char>)
    ensures
        split_underscore(s).len() >= 1,
    decreases s.len(),
{
    if s.len() > 0 {
        lemma_split_nonempty(s.drop_last());
    }
}

/// Capitalizes a word into `out` unless the word is `on`.
fn push_word(out: &mut String, w: &Vec<char>)
    ensures
        w@ == "on"@ ==> final(out)@ == old(out)@,
        w@ != "on"@ ==> final(out)@ == old(out)@ + capitalize(w@),
{
    let on = chars_of("on");
    if crate::text::chars_eq(w.as_slice(), on.as_slice()) {
        return;
    }
    if w.len() == 0 {
        return;
    }
    let up = char_to_uppercase(w[0]);
    assert(up@ == upper_char(w@[0]));
    let mut k: usize = 0;
    while k < up.len()
        invariant
            k <= up@.len(),
            out@ == old(out)@ + up@.take(k as int),
        decreases up@.len() - k,
    {
        push_char(out, up[k]);
        k += 1;
        assert(up@.take(k as int) =~= up@.take(k - 1).push(up@[k - 1]));
    }
    let ghost mid = out@;
    let mut j: usize = 1;
    while j < w.len()
        invariant
            1 <= j <= w@.len(),
            out@ == mid + w@.subrange(1, j as int),
        decreases w@.len() - j,
    {
        push_char(out, w[j]);
        j += 1;
        assert(w@.subrange(1, j as int) =~= w@.subrange(1, j - 1).push(w@[j - 1]));
    }
    assert(up@.take(up@.len() as int) =~= up@);
    assert(w@.subrange(1, w@.len() as int) =~= w@.drop_first());
    assert(out@ =~= old(out)@ + capitalize(w@));
}

/// Converts a snake-case C type name (`aeron_image_t`) into the PascalCase
/// class name (`AeronImage`): drops a `_t` suffix, splits on `_`, leaves out
/// the word `on` and capitalizes the rest.
pub fn snake_to_pascal_case(snake: &str) -> (r: String)
    ensures
        r@ == pascal_case(snake@),
{
    let all = chars_of(snake);
    let t = chars_of("_t");
    let n = if all.len() >= 2 && crate::text::chars_match_at(all.as_slice(), all.len() - 2, t.as_slice()) {
        all.len() - 2
    } else {
        all.len()
    };
    proof {
        reveal_strlit("_t");
        if seq_ends_with(all@, "_t"@) {
            assert(all@.len() >= 2);
        }
    }
    let ghost s = strip_type_suffix(all@);
    assert(s == all@.subrange(0, n as int));
    let mut out = String::new();
    let mut cur: Vec<char> = Vec::new();
    let ghost mut done: Seq<Seq<char>> = seq![];
    let mut i: usize = 0;
    while i < n
        invariant
            i <= n <= all@.len(),
            s == all@.subrange(0, n as int),
            split_underscore(s.take(i as int)) == done.push(cur@),
            out@ == join_capitalized(done),
        decreases n - i,
    {
        let c = all[i];
        let ghost pre = s.take(i + 1);
        assert(pre.drop_last() =~= s.take(i as int));
        assert(pre.last() == c);
        if c == '_' {
            push_word(&mut out, &cur);
            proof {
                let d2 = done.push(cur@);
                assert(d2.drop_last() =~= done);
                assert(out@ == join_capitalized(d2));
                assert(split_underscore(pre) =~= d2.push(Seq::<char>::empty()));
                done = d2;
            }
            cur = Vec::new();
        } else {
            cur.push(c);
            proof {
                assert(split_underscore(pre) =~= done.push(cur@));
            }
        }
        i += 1;
    }
    push_word(&mut out, &cur);
    proof {
        assert(s.take(n as int) =~= s);
        let d2 = done.push(cur@);
        assert(d2.drop_last() =~= done);
    }
    out
}

/// A byte buffer (`*const u8` or `*mut u8`) followed by its length (a
/// `usize` or `i32` named `length`, `len`, or the buffer's name with a
/// `_length` suffix) is grouped as a byte array with its length: the buffer
/// takes that grouping with both arguments as members, and so does the
/// length (no later pair can claim a length argument).
pub proof fn lemma_byte_buffer_with_length_is_grouped(args: Seq<Arg>, j: int)
    requires
        0 <= j,
        j + 1 < args.len(),
        args[j].c_type@ == "* const u8"@ || args[j].c_type@ == "* mut u8"@,
        args[j + 1].c_type@ == "usize"@ || args[j + 1].c_type@ == "i32"@,
        args[j + 1].name@ == "length"@ || args[j + 1].name@ == "len"@ || (seq_ends_with(args[j + 1].name@, "_length"@)
            && seq_starts_with(args[j + 1].name@, args[j].name@)),
    ensures
        grouping_after(args, args.len() as int, j) == (
            ProcessingKind::ByteArrayWithLength,
            seq![(args[j].name@, args[j].c_type@), (args[j + 1].name@, args[j + 1].c_type@)],
        ),
        grouping_after(args, args.len() as int, j + 1) == (
            ProcessingKind::ByteArrayWithLength,
            seq![(args[j].name@, args[j].c_type@), (args[j + 1].name@, args[j + 1].c_type@)],
        ),
{
    reveal_strlit("* const u8");
    reveal_strlit("* mut u8");
    reveal_strlit("usize");
    reveal_strlit("i32");
    reveal_strlit("* mut :: std :: os :: raw :: c_void");
    reveal_strlit("* const :: std :: os :: raw :: c_char");
    reveal_strlit("* mut :: std :: os :: raw :: c_char");
    let nt = args.map_values(|a: Arg| arg_name_type(a));
    assert(nt[j] == (args[j].name@, args[j].c_type@));
    assert(nt[j + 1] == (args[j + 1].name@, args[j + 1].c_type@));
    assert(Arg::C_VOID@ == "* mut :: std :: os :: raw :: c_void"@);
    assert(Arg::C_CHAR_STR@ == "* const :: std :: os :: raw :: c_char"@);
    assert(Arg::C_MUT_CHAR_STR@ == "* mut :: std :: os :: raw :: c_char"@);
    assert(Arg::C_VOID@.len() > 10 && Arg::C_CHAR_STR@.len() > 10 && Arg::C_MUT_CHAR_STR@.len() > 10);
    assert("usize"@.len() == 5 && "i32"@.len() == 3 && "* const u8"@.len() == 10 && "* mut u8"@.len() == 8);
    assert(Arg::C_VOID@ != "usize"@ && Arg::C_VOID@ != "i32"@);
    assert(Arg::C_CHAR_STR@ != "* const u8"@ && Arg::C_CHAR_STR@ != "* mut u8"@);
    assert(Arg::C_MUT_CHAR_STR@ != "* const u8"@ && Arg::C_MUT_CHAR_STR@ != "* mut u8"@);
    assert(pair_kind(nt[j], nt[j + 1]) == Some(ProcessingKind::ByteArrayWithLength));
    if j + 2 < args.len() {
        assert(nt[j + 2] == arg_name_type(args[j + 2]));
        assert(!seq_ends_with("usize"@, "_t"@) && !seq_ends_with("i32"@, "_t"@)) by {
            reveal_strlit("_t");
            assert("usize"@.subrange(3, 5)[1] == 'e');
            assert("i32"@.subrange(1, 3)[1] == '2');
        }
        assert(pair_kind(nt[j + 1], nt[j + 2]) is None);
    }
}

/// A callback type (a type name ending in `_t` that is no mutable pointer)
/// followed by a `*mut c_void` client data pointer is grouped as a handler:
/// both arguments take that grouping with both as members.
pub proof fn lemma_callback_with_clientd_is_grouped(args: Seq<Arg>, j: int)
    requires
        0 <= j,
        j + 1 < args.len(),
        seq_ends_with(args[j].c_type@, "_t"@),
        !seq_starts_with(args[j].c_type@, "* mut"@),
        args[j + 1].c_type@ == "* mut :: std :: os :: raw :: c_void"@,
    ensures
        grouping_after(args, args.len() as int, j) == (
            ProcessingKind::Handler,
            seq![(args[j].name@, args[j].c_type@), (args[j + 1].name@, args[j + 1].c_type@)],
        ),
        grouping_after(args, args.len() as int, j + 1) == (
            ProcessingKind::Handler,
            seq![(args[j].name@, args[j].c_type@), (args[j + 1].name@, args[j + 1].c_type@)],
        ),
{
    reveal_strlit("* mut :: std :: os :: raw :: c_void");
    reveal_strlit("* mut");
    reveal_strlit("* const :: std :: os :: raw :: c_char");
    reveal_strlit("* mut :: std :: os :: raw :: c_char");
    reveal_strlit("* const u8");
    reveal_strlit("* mut u8");
    let nt = args.map_values(|a: Arg| arg_name_type(a));
    assert(nt[j] == (args[j].name@, args[j].c_type@));
    assert(nt[j + 1] == (args[j + 1].name@, args[j + 1].c_type@));
    assert(Arg::C_VOID@ == "* mut :: std :: os :: raw :: c_void"@);
    assert(Arg::STAR_MUT@ == "* mut"@);
    assert(pair_kind(nt[j], nt[j + 1]) == Some(ProcessingKind::Handler));
    if j + 2 < args.len() {
        let c = args[j + 1].c_type@;
        assert(nt[j + 2] == arg_name_type(args[j + 2]));
        assert(seq_starts_with(c, "* mut"@)) by {
            assert(c.subrange(0, 5) =~= "* mut"@);
        }
        assert(Arg::C_CHAR_STR@ == "* const :: std :: os :: raw :: c_char"@);
        assert(Arg::C_MUT_CHAR_STR@ == "* mut :: std :: os :: raw :: c_char"@);
        assert(c != Arg::C_CHAR_STR@ && c != Arg::C_MUT_CHAR_STR@) by {
            assert(c[c.len() - 1] == 'd');
            assert(Arg::C_CHAR_STR@[Arg::C_CHAR_STR@.len() - 1] == 'r');
            assert(Arg::C_MUT_CHAR_STR@[Arg::C_MUT_CHAR_STR@.len() - 1] == 'r');
        }
        assert(c.len() != 10 && c.len() != 8);
        assert(pair_kind(nt[j + 1], nt[j + 2]) is None);
    }
}

/// A C string (`*const c_char`) followed by its length (a `usize` or `i32`
/// named `length`, `len`, or the string's name with a `_length` suffix) is
/// grouped as a string with its length: both arguments take that grouping
/// with both as members.
pub proof fn lemma_string_with_length_is_grouped(args: Seq<Arg>, j: int)
    requires
        0 <= j,
        j + 1 < args.len(),
        args[j].c_type@ == "* const :: std :: os :: raw :: c_char"@,
        args[j + 1].c_type@ == "usize"@ || args[j + 1].c_type@ == "i32"@,
        args[j + 1].name@ == "length"@ || args[j + 1].name@ == "len"@ || (seq_ends_with(args[j + 1].name@, "_length"@)
            && seq_starts_with(args[j + 1].name@, args[j].name@)),
    ensures
        grouping_after(args, args.len() as int, j) == (
            ProcessingKind::StringWithLength,
            seq![(args[j].name@, args[j].c_type@), (args[j + 1].name@, args[j + 1].c_type@)],
        ),
        grouping_after(args, args.len() as int, j + 1) == (
            ProcessingKind::StringWithLength,
            seq![(args[j].name@, args[j].c_type@), (args[j + 1].name@, args[j + 1].c_type@)],
        ),
{
    reveal_strlit("usize");
    reveal_strlit("i32");
    reveal_strlit("* mut :: std :: os :: raw :: c_void");
    reveal_strlit("* const :: std :: os :: raw :: c_char");
    reveal_strlit("* mut");
    let nt = args.map_values(|a: Arg| arg_name_type(a));
    let c = args[j].c_type@;
    assert(nt[j] == (args[j].name@, c));
    assert(nt[j + 1] == (args[j + 1].name@, args[j + 1].c_type@));
    assert(Arg::C_VOID@ == "* mut :: std :: os :: raw :: c_void"@);
    assert(Arg::C_CHAR_STR@ == "* const :: std :: os :: raw :: c_char"@);
    assert(Arg::STAR_MUT@ == "* mut"@);
    assert(Arg::C_VOID@.len() > 10);
    assert(Arg::C_VOID@ != "usize"@ && Arg::C_VOID@ != "i32"@);
    assert(!seq_starts_with(c, "* mut"@)) by {
        assert(c.subrange(0, 5)[2] == 'c');
    }
    assert(pair_kind(nt[j], nt[j + 1]) == Some(ProcessingKind::StringWithLength));
    if j + 2 < args.len() {
        reveal_strlit("* const u8");
        reveal_strlit("* mut u8");
        reveal_strlit("* mut :: std :: os :: raw :: c_char");
        assert(Arg::C_MUT_CHAR_STR@ == "* mut :: std :: os :: raw :: c_char"@);
        assert(Arg::C_BYTE_ARRAY@ == "* const u8"@);
        assert(Arg::C_BYTE_MUT_ARRAY@ == "* mut u8"@);
        assert(Arg::C_CHAR_STR@.len() > 10 && Arg::C_MUT_CHAR_STR@.len() > 10);
        assert("usize"@.len() == 5 && "i32"@.len() == 3 && "* const u8"@.len() == 10 && "* mut u8"@.len() == 8);
        assert(nt[j + 2] == arg_name_type(args[j + 2]));
        assert(!seq_ends_with("usize"@, "_t"@) && !seq_ends_with("i32"@, "_t"@)) by {
            reveal_strlit("_t");
            assert("usize"@.subrange(3, 5)[1] == 'e');
            assert("i32"@.subrange(1, 3)[1] == '2');
        }
        assert(pair_kind(nt[j + 1], nt[j + 2]) is None);
    }
}

/// Only the three documented shapes of neighbouring arguments are grouped: a
/// byte array grouping starts with a `u8` pointer, a string grouping with a
/// `*const c_char`, each followed by a `usize` or `i32` length field, and a
/// handler grouping is a callback type (ending in `_t`, no mutable pointer)
/// followed by a `*mut c_void` client data pointer.
pub proof fn lemma_grouped_pairs_have_documented_shapes(p1: (Seq<char>, Seq<char>), p2: (Seq<char>, Seq<char>))
    ensures
        pair_kind(p1, p2) == Some(ProcessingKind::ByteArrayWithLength) ==> (p1.1 == "* const u8"@ || p1.1 == "* mut u8"@)
            && (p2.1 == "usize"@ || p2.1 == "i32"@) && is_length_field(p2.0, p1.0),
        pair_kind(p1, p2) == Some(ProcessingKind::StringWithLength) ==> p1.1 == "* const :: std :: os :: raw :: c_char"@
            && (p2.1 == "usize"@ || p2.1 == "i32"@) && is_length_field(p2.0, p1.0),
        pair_kind(p1, p2) == Some(ProcessingKind::Handler) ==> p2.1 == "* mut :: std :: os :: raw :: c_void"@
            && seq_ends_with(p1.1, "_t"@) && !seq_starts_with(p1.1, "* mut"@),
        pair_kind(p1, p2) != Some(ProcessingKind::Default),
{
    reveal_strlit("* mut :: std :: os :: raw :: c_char");
    reveal_strlit("* mut");
    assert(Arg::C_BYTE_ARRAY@ == "* const u8"@);
    assert(Arg::C_BYTE_MUT_ARRAY@ == "* mut u8"@);
    assert(Arg::C_CHAR_STR@ == "* const :: std :: os :: raw :: c_char"@);
    assert(Arg::C_MUT_CHAR_STR@ == "* mut :: std :: os :: raw :: c_char"@);
    assert(Arg::C_VOID@ == "* mut :: std :: os :: raw :: c_void"@);
    assert(Arg::STAR_MUT@ == "* mut"@);
    assert(seq_starts_with(Arg::C_MUT_CHAR_STR@, "* mut"@)) by {
        assert(Arg::C_MUT_CHAR_STR@.subrange(0, 5) =~= "* mut"@);
    }
}

} // verus!
