//! Properties that hold of every generated companion.
use vstd::prelude::*;
use crate::expand::{
    access_body, as_ptr_method, conversion_items, core_items, default_from_impls, expansion,
    extend_impl, get_method, get_mut_method, merge_end, merge_loop, merge_setup, mut_items,
    mut_ptr_items, mutable_into_iter_impl, mutable_next_impl, mutable_structs, ordered_merge,
    owned_into_iter_impl, owned_iter_items, owned_next_impl, owned_structs, par_extend_head,
    par_extend_items, ptr_items, push_method, ref_items, shared_into_iter_impl, shared_next_impl,
    shared_structs, soa_impl_head, soa_impl_rest, soa_impl_tail, soa_struct, spec_derive_soa,
    SoaError,
};
use crate::input::{Data, DeriveInput, Field, Fields, TypeKind};
use crate::lines::{LineKind, field_line, field_lines, field_list};
use crate::names::{NamesView, fragment_of, names_for, suffixed};
use crate::send::all_send;

verus! {

/// The derive succeeds exactly on structs with at least one named field; an
/// enum or union, a tuple or unit struct, and a struct without fields are
/// each refused with their own error.
pub proof fn lemma_derive_succeeds_exactly_on_named_structs(input: DeriveInput)
    ensures
        spec_derive_soa(input) is Ok <==> (input.data matches Data::Struct(Fields::Named(fs))
            && fs@.len() > 0),
        spec_derive_soa(input) == Err::<Seq<char>, SoaError>(SoaError::NotAStruct) <==> !(
        input.data is Struct),
        spec_derive_soa(input) == Err::<Seq<char>, SoaError>(SoaError::NotNamedFields) <==> (
        input.data matches Data::Struct(fields) && !(fields is Named)),
{
}

/// The per-field lines of a sequence of fields are those of its first part
/// followed by those of its second part: each field contributes one line, in
/// declaration order.
pub proof fn lemma_field_lines_concat(kind: LineKind, a: Seq<Field>, b: Seq<Field>)
    ensures
        field_lines(kind, a + b) == field_lines(kind, a) + field_lines(kind, b),
    decreases b.len(),
{
    if b.len() == 0 {
        assert(a + b =~= a);
        assert(field_lines(kind, a) + field_lines(kind, b) =~= field_lines(kind, a));
    } else {
        lemma_field_lines_concat(kind, a, b.drop_last());
        assert((a + b).drop_last() =~= a + b.drop_last());
        assert((a + b).last() == b.last());
        assert(field_lines(kind, a) + field_lines(kind, b) =~= field_lines(kind, a)
            + field_lines(kind, b.drop_last()) + field_line(kind, b.last()));
    }
}

/// A single field contributes exactly its own line.
pub proof fn lemma_field_lines_single(kind: LineKind, f: Field)
    ensures
        field_lines(kind, seq![f]) == field_line(kind, f),
{
    assert(seq![f].drop_last() =~= Seq::<Field>::empty());
    assert(seq![f].last() == f);
    assert(field_lines(kind, Seq::<Field>::empty()) == Seq::<char>::empty());
    assert(Seq::<char>::empty() + field_line(kind, f) =~= field_line(kind, f));
}

proof fn lemma_regroup(
    p: Seq<char>,
    q: Seq<char>,
    m: Seq<char>,
    r0: Seq<char>,
    r1: Seq<char>,
    r2: Seq<char>,
    r3: Seq<char>,
    r4: Seq<char>,
    r5: Seq<char>,
)
    ensures
        p + q + m + r0 + r1 + r2 + r3 + r4 + r5 == (p + q) + m + (r0 + r1 + r2 + r3 + r4 + r5),
{
    assert(p + q + m + r0 + r1 + r2 + r3 + r4 + r5 =~= (p + q) + m + (r0 + r1 + r2 + r3 + r4
        + r5));
}

proof fn lemma_assoc(a: Seq<char>, b: Seq<char>, c: Seq<char>)
    ensures
        a + b + c == a + (b + c),
{
    assert(a + b + c =~= a + (b + c));
}

/// The text after the collection's declaration in the generated text.
spec fn after_collection(n: NamesView, fs: Seq<Field>) -> Seq<char> {
    let tail = soa_impl_head(n, fs) + soa_impl_tail(n, fs) + conversion_items(n, fs)
        + owned_iter_items(n, fs) + ref_items(n, fs) + mut_items(n, fs);
    if all_send(fs) {
        tail + par_extend_items(n)
    } else {
        tail
    }
}

/// The generated text declares the collection `{name}Soa` with one `Vec`
/// column per field, in declaration order.
pub proof fn lemma_collection_declares_one_column_per_field(name: Seq<char>, fs: Seq<Field>)
    ensures
        exists|before: Seq<char>, after: Seq<char>|
            expansion(names_for(name), fs) == before + ("pub struct "@ + suffixed(name, "Soa"@)
                + " { "@ + field_lines(LineKind::VecField, fs) + "} "@) + after,
{
    let n = names_for(name);
    let before = ptr_items(n, fs) + mut_ptr_items(n, fs);
    let m = soa_struct(n, fs);
    let after = after_collection(n, fs);
    lemma_regroup(
        ptr_items(n, fs),
        mut_ptr_items(n, fs),
        m,
        soa_impl_head(n, fs),
        soa_impl_tail(n, fs),
        conversion_items(n, fs),
        owned_iter_items(n, fs),
        ref_items(n, fs),
        mut_items(n, fs),
    );
    if all_send(fs) {
        let tail = soa_impl_head(n, fs) + soa_impl_tail(n, fs) + conversion_items(n, fs)
            + owned_iter_items(n, fs) + ref_items(n, fs) + mut_items(n, fs);
        lemma_assoc(before + m, tail, par_extend_items(n));
    }
    assert(expansion(n, fs) == before + m + after);
}

/// The parallel-extend implementation ends the generated text when every
/// field may be sent across threads, and is absent otherwise.
pub proof fn lemma_par_extend_iff_all_send(name: Seq<char>, fs: Seq<Field>)
    ensures
        all_send(fs) ==> expansion(names_for(name), fs) == core_items(names_for(name), fs)
            + par_extend_items(names_for(name)),
        !all_send(fs) ==> expansion(names_for(name), fs) == core_items(names_for(name), fs),
{
}

/// A raw pointer field, or a field of one of the non-`Send` wrapper types,
/// keeps the parallel-extend implementation out.
pub proof fn lemma_non_send_field_excludes_par_extend(fs: Seq<Field>, i: int, last: String)
    requires
        0 <= i < fs.len(),
        fs[i].kind == TypeKind::Ptr || (fs[i].kind == TypeKind::Path(Some(last))
            && crate::send::is_non_send_name(last@)),
    ensures
        !all_send(fs),
{
}

/// A raw identifier and its plain spelling give the same generated
/// identifiers.
pub proof fn lemma_raw_ident_same_names(name: Seq<char>, suffix: Seq<char>)
    requires
        !(name.len() >= 2 && name[0] == 'r' && name[1] == '#'),
    ensures
        suffixed("r#"@ + name, suffix) == suffixed(name, suffix),
{
    reveal_strlit("r#");
    assert(("r#"@ + name).skip(2) =~= name);
}

/// The identifiers generated for a struct differ from one another and from
/// the struct's own identifier, so the generated items never clash.
pub proof fn lemma_generated_names_distinct(name: Seq<char>)
    ensures
        ({
            let n = names_for(name);
            let all = seq![n.name, n.soa, n.ptr, n.mut_ptr, n.iter, n.ref_name, n.iter_ref, n.mut_name, n.iter_mut];
            forall|i: int, j: int| 0 <= i < j < 9 ==> all[i] != all[j]
        }),
{
    reveal_strlit("Soa");
    reveal_strlit("Ptr");
    reveal_strlit("MutPtr");
    reveal_strlit("Iter");
    reveal_strlit("Ref");
    reveal_strlit("IterRef");
    reveal_strlit("Mut");
    reveal_strlit("IterMut");
    let f = fragment_of(name);
    assert(f.len() + 2 >= name.len());
    let n = names_for(name);
    let all = seq![n.name, n.soa, n.ptr, n.mut_ptr, n.iter, n.ref_name, n.iter_ref, n.mut_name, n.iter_mut];
    assert forall|i: int, j: int| 0 <= i < j < 9 implies all[i] != all[j] by {
        if i > 0 {
            let a = all[i];
            let b = all[j];
            if a.len() == b.len() {
                // same length: the suffixes differ in their last character
                // or in their first
                assert(a[a.len() - 1] != b[b.len() - 1] || a[f.len() as int] != b[f.len() as int]);
            }
        }
    }
}


/// `t` occurs in `s` as a contiguous piece.
pub open spec fn contains(s: Seq<char>, t: Seq<char>) -> bool {
    exists|a: Seq<char>, b: Seq<char>| #![trigger a + t + b] a + t + b == s
}

proof fn lemma_contains_mid(a: Seq<char>, t: Seq<char>, b: Seq<char>)
    ensures
        contains(a + t + b, t),
{
    assert(a + t + b == a + t + b);
}

proof fn lemma_contains_suffix(a: Seq<char>, t: Seq<char>)
    ensures
        contains(a + t, t),
{
    lemma_contains_mid(a, t, Seq::empty());
    assert(a + t + Seq::empty() =~= a + t);
}

proof fn lemma_contains_right(s: Seq<char>, t: Seq<char>, c: Seq<char>)
    requires
        contains(s, t),
    ensures
        contains(s + c, t),
{
    let (a, b) = choose|a: Seq<char>, b: Seq<char>| #![trigger a + t + b] a + t + b == s;
    lemma_contains_mid(a, t, b + c);
    assert(a + t + (b + c) =~= s + c);
}

proof fn lemma_contains_left(c: Seq<char>, s: Seq<char>, t: Seq<char>)
    requires
        contains(s, t),
    ensures
        contains(c + s, t),
{
    let (a, b) = choose|a: Seq<char>, b: Seq<char>| #![trigger a + t + b] a + t + b == s;
    lemma_contains_mid(c + a, t, b);
    assert(c + a + t + b =~= c + s);
}

proof fn lemma_contains_trans(s: Seq<char>, m: Seq<char>, t: Seq<char>)
    requires
        contains(s, m),
        contains(m, t),
    ensures
        contains(s, t),
{
    let (a, b) = choose|a: Seq<char>, b: Seq<char>| #![trigger a + t + b] a + t + b == m;
    let (c, d) = choose|c: Seq<char>, d: Seq<char>| #![trigger c + m + d] c + m + d == s;
    lemma_contains_mid(c + a, t, b + d);
    assert((c + a) + t + (b + d) =~= c + m + d);
}

/// Anything inside one of the items of the generated text is inside the whole text.
proof fn lemma_item_in_expansion(n: NamesView, fs: Seq<Field>, t: Seq<char>)
    requires
        contains(soa_impl_tail(n, fs), t) || contains(conversion_items(n, fs), t) || contains(
            owned_iter_items(n, fs),
            t,
        ) || contains(ref_items(n, fs), t) || contains(mut_items(n, fs), t) || (all_send(fs)
            && contains(par_extend_items(n), t)),
    ensures
        contains(expansion(n, fs), t),
{
    let c4 = ptr_items(n, fs) + mut_ptr_items(n, fs) + soa_struct(n, fs) + soa_impl_head(n, fs);
    let p5 = soa_impl_tail(n, fs);
    let p6 = conversion_items(n, fs);
    let p7 = owned_iter_items(n, fs);
    let p8 = ref_items(n, fs);
    let p9 = mut_items(n, fs);
    let c5 = c4 + p5;
    let c6 = c5 + p6;
    let c7 = c6 + p7;
    let c8 = c7 + p8;
    let c9 = c8 + p9;
    if all_send(fs) && contains(par_extend_items(n), t) {
        lemma_contains_left(c9, par_extend_items(n), t);
    } else {
        if contains(p5, t) {
            lemma_contains_left(c4, p5, t);
        }
        if contains(c5, t) {
            lemma_contains_right(c5, t, p6);
        } else if contains(p6, t) {
            lemma_contains_left(c5, p6, t);
        }
        if contains(c6, t) {
            lemma_contains_right(c6, t, p7);
        } else if contains(p7, t) {
            lemma_contains_left(c6, p7, t);
        }
        if contains(c7, t) {
            lemma_contains_right(c7, t, p8);
        } else if contains(p8, t) {
            lemma_contains_left(c7, p8, t);
        }
        if contains(c8, t) {
            lemma_contains_right(c8, t, p9);
        } else if contains(p9, t) {
            lemma_contains_left(c8, p9, t);
        }
        assert(contains(c9, t));
        if all_send(fs) {
            lemma_contains_right(c9, t, par_extend_items(n));
        }
    }
}


proof fn lemma_contains_self(t: Seq<char>)
    ensures
        contains(t, t),
{
    lemma_contains_mid(Seq::empty(), t, Seq::empty());
    assert(Seq::<char>::empty() + t + Seq::<char>::empty() =~= t);
}

proof fn lemma_chain3(p1: Seq<char>, p2: Seq<char>, p3: Seq<char>)
    ensures
        contains(p1 + p2 + p3, p1),
        contains(p1 + p2 + p3, p2),
        contains(p1 + p2 + p3, p3),
{
    lemma_contains_self(p1);
    lemma_contains_right(p1, p1, p2);
    lemma_contains_right(p1 + p2, p1, p3);
    lemma_contains_mid(p1, p2, p3);
    lemma_contains_suffix(p1 + p2, p3);
}

proof fn lemma_chain5(p1: Seq<char>, p2: Seq<char>, p3: Seq<char>, p4: Seq<char>, p5: Seq<char>)
    ensures
        contains(p1 + p2 + p3 + p4 + p5, p1),
        contains(p1 + p2 + p3 + p4 + p5, p2),
        contains(p1 + p2 + p3 + p4 + p5, p3),
        contains(p1 + p2 + p3 + p4 + p5, p4),
        contains(p1 + p2 + p3 + p4 + p5, p5),
{
    lemma_chain3(p1, p2, p3);
    let c = p1 + p2 + p3;
    assert forall|t: Seq<char>| contains(c, t) implies contains(c + p4 + p5, t) by {
        lemma_contains_right(c, t, p4);
        lemma_contains_right(c + p4, t, p5);
    }
    lemma_contains_mid(c, p4, p5);
    lemma_contains_suffix(c + p4, p5);
}

proof fn lemma_chain9(
    p1: Seq<char>,
    p2: Seq<char>,
    p3: Seq<char>,
    p4: Seq<char>,
    p5: Seq<char>,
    p6: Seq<char>,
    p7: Seq<char>,
    p8: Seq<char>,
    p9: Seq<char>,
)
    ensures
        ({
            let c = p1 + p2 + p3 + p4 + p5 + p6 + p7 + p8 + p9;
            &&& contains(c, p1)
            &&& contains(c, p2)
            &&& contains(c, p3)
            &&& contains(c, p4)
            &&& contains(c, p5)
            &&& contains(c, p6)
            &&& contains(c, p7)
            &&& contains(c, p8)
            &&& contains(c, p9)
        }),
{
    lemma_chain5(p1, p2, p3, p4, p5);
    let c5 = p1 + p2 + p3 + p4 + p5;
    assert forall|t: Seq<char>| contains(c5, t) implies contains(c5 + p6 + p7 + p8 + p9, t) by {
        lemma_contains_right(c5, t, p6);
        lemma_contains_right(c5 + p6, t, p7);
        lemma_contains_right(c5 + p6 + p7, t, p8);
        lemma_contains_right(c5 + p6 + p7 + p8, t, p9);
    }
    lemma_chain5(c5, p6, p7, p8, p9);
}

/// Every item of the generated text is inside the whole text.
proof fn lemma_items_in_expansion(n: NamesView, fs: Seq<Field>)
    ensures
        contains(expansion(n, fs), ptr_items(n, fs)),
        contains(expansion(n, fs), mut_ptr_items(n, fs)),
        contains(expansion(n, fs), soa_struct(n, fs)),
        contains(expansion(n, fs), soa_impl_head(n, fs)),
        contains(expansion(n, fs), soa_impl_tail(n, fs)),
        contains(expansion(n, fs), conversion_items(n, fs)),
        contains(expansion(n, fs), owned_iter_items(n, fs)),
        contains(expansion(n, fs), ref_items(n, fs)),
        contains(expansion(n, fs), mut_items(n, fs)),
        all_send(fs) ==> contains(expansion(n, fs), par_extend_items(n)),
{
    let e = expansion(n, fs);
    let core = core_items(n, fs);
    lemma_contains_self(core);
    if all_send(fs) {
        lemma_contains_right(core, core, par_extend_items(n));
        lemma_contains_suffix(core, par_extend_items(n));
    }
    lemma_chain9(
        ptr_items(n, fs),
        mut_ptr_items(n, fs),
        soa_struct(n, fs),
        soa_impl_head(n, fs),
        soa_impl_tail(n, fs),
        conversion_items(n, fs),
        owned_iter_items(n, fs),
        ref_items(n, fs),
        mut_items(n, fs),
    );
    lemma_contains_trans(e, core, ptr_items(n, fs));
    lemma_contains_trans(e, core, mut_ptr_items(n, fs));
    lemma_contains_trans(e, core, soa_struct(n, fs));
    lemma_contains_trans(e, core, soa_impl_head(n, fs));
    lemma_contains_trans(e, core, soa_impl_tail(n, fs));
    lemma_contains_trans(e, core, conversion_items(n, fs));
    lemma_contains_trans(e, core, owned_iter_items(n, fs));
    lemma_contains_trans(e, core, ref_items(n, fs));
    lemma_contains_trans(e, core, mut_items(n, fs));
}

/// Every part of the generated text is inside the whole text; the parts of
/// the parallel-extend implementation are when every field may be sent.
proof fn lemma_parts_in_expansion(n: NamesView, fs: Seq<Field>)
    ensures
        contains(expansion(n, fs), ptr_items(n, fs)),
        contains(expansion(n, fs), mut_ptr_items(n, fs)),
        contains(expansion(n, fs), soa_struct(n, fs)),
        contains(expansion(n, fs), soa_impl_head(n, fs)),
        contains(expansion(n, fs), as_ptr_method(n, fs)),
        contains(expansion(n, fs), soa_impl_rest(n, fs)),
        contains(expansion(n, fs), default_from_impls(n, fs)),
        contains(expansion(n, fs), owned_structs(n, fs)),
        contains(expansion(n, fs), shared_structs(n, fs)),
        contains(expansion(n, fs), mutable_structs(n, fs)),
        all_send(fs) ==> contains(expansion(n, fs), par_extend_head(n)),
        all_send(fs) ==> contains(expansion(n, fs), merge_setup()),
        all_send(fs) ==> contains(expansion(n, fs), merge_loop()),
        all_send(fs) ==> contains(expansion(n, fs), merge_end()),
{
    let e = expansion(n, fs);
    lemma_items_in_expansion(n, fs);
    lemma_chain5(
        as_ptr_method(n, fs),
        get_method(n, fs),
        get_mut_method(n, fs),
        push_method(n, fs),
        soa_impl_rest(n, fs),
    );
    lemma_contains_trans(e, soa_impl_tail(n, fs), as_ptr_method(n, fs));
    lemma_contains_trans(e, soa_impl_tail(n, fs), soa_impl_rest(n, fs));
    lemma_contains_self(default_from_impls(n, fs));
    lemma_contains_right(default_from_impls(n, fs), default_from_impls(n, fs), extend_impl(n, fs));
    lemma_contains_trans(e, conversion_items(n, fs), default_from_impls(n, fs));
    lemma_chain3(owned_structs(n, fs), owned_next_impl(n, fs), owned_into_iter_impl(n, fs));
    lemma_contains_trans(e, owned_iter_items(n, fs), owned_structs(n, fs));
    lemma_chain3(shared_structs(n, fs), shared_next_impl(n, fs), shared_into_iter_impl(n, fs));
    lemma_contains_trans(e, ref_items(n, fs), shared_structs(n, fs));
    lemma_chain3(mutable_structs(n, fs), mutable_next_impl(n, fs), mutable_into_iter_impl(n, fs));
    lemma_contains_trans(e, mut_items(n, fs), mutable_structs(n, fs));
    if all_send(fs) {
        let pe = par_extend_items(n);
        let m = ordered_merge();
        lemma_chain3(par_extend_head(n), m, "} "@);
        lemma_contains_trans(e, pe, par_extend_head(n));
        lemma_contains_trans(e, pe, m);
        lemma_chain5(
            merge_setup(),
            "queue.push(node, pos.idx); "@,
            merge_loop(),
            "Some(queue.push_then_pop(node, pos.idx).0) "@,
            merge_end(),
        );
        lemma_contains_trans(e, m, merge_setup());
        lemma_contains_trans(e, m, merge_loop());
        lemma_contains_trans(e, m, merge_end());
    }
}

/// A statement that pushes the field `f` of the value `src` at the end of
/// `f`'s column.
pub open spec fn column_push(f: Field, src: Seq<char>) -> Seq<char> {
    "self."@ + f.ident@ + ".push("@ + src + "."@ + f.ident@ + "); "@
}

/// A binding of `f` to a `borrow` of the element at `index` of `f`'s column.
pub open spec fn row_binding(f: Field, borrow: Seq<char>) -> Seq<char> {
    "let "@ + f.ident@ + " = "@ + borrow + "self."@ + f.ident@ + "[index]; "@
}

/// A binding of `f` to the item that `step` gives of `f`'s column iterator.
pub open spec fn advance_binding(f: Field, step: Seq<char>) -> Seq<char> {
    "let "@ + f.ident@ + " = unsafe { self."@ + f.ident@ + "."@ + step + ".unwrap_unchecked() }; "@
}

/// A field initialiser that takes `f`'s column through its method `method`.
pub open spec fn column_iter(f: Field, method: Seq<char>) -> Seq<char> {
    f.ident@ + ": self."@ + f.ident@ + "."@ + method + "(), "@
}

/// The text `line` gives for each of the fields `fs`, in order.
pub open spec fn each(fs: Seq<Field>, line: spec_fn(Field) -> Seq<char>) -> Seq<char>
    decreases fs.len(),
{
    if fs.len() == 0 {
        Seq::empty()
    } else {
        each(fs.drop_last(), line) + line(fs.last())
    }
}

/// A row read through the first column with `call`: with one field the row
/// holds what `call` gives; with more, the other fields are bound by
/// `bindings` and the row holds every field.
pub open spec fn row_read(fs: Seq<Field>, call: Seq<char>, bindings: Seq<char>, target: Seq<char>) -> Seq<char> {
    if fs.len() == 1 {
        "self."@ + fs[0].ident@ + "."@ + call + ".map(|"@ + fs[0].ident@ + "| "@ + target + " { "@
            + fs[0].ident@ + " })"@
    } else {
        "self."@ + fs[0].ident@ + "."@ + call + ".map(|"@ + fs[0].ident@ + "| { "@ + bindings
            + target + " { "@ + field_list(fs) + " } })"@
    }
}

/// The derive input of a struct with the named fields `fields`.
pub open spec fn named_struct(ident: String, fields: Vec<Field>) -> DeriveInput {
    DeriveInput { ident: ident, data: Data::Struct(Fields::Named(fields)) }
}

/// What each kind of per-field line does with its field's column: `push`
/// and `Extend` push the field of `item` and of `x` at the end of the
/// column; `get` and `get_mut` borrow the element at `index`; the row
/// iterators take each column's next item with `next()`; and the iterators
/// and pointers are taken from each column by the matching method.
pub proof fn lemma_field_line_shapes(f: Field)
    ensures
        field_line(LineKind::Push, f) == column_push(f, "item"@),
        field_line(LineKind::ExtendPush, f) == column_push(f, "x"@),
        field_line(LineKind::GetLet, f) == row_binding(f, "&"@),
        field_line(LineKind::GetMutLet, f) == row_binding(f, "&mut "@),
        field_line(LineKind::NextLet, f) == advance_binding(f, "next()"@),
        field_line(LineKind::IntoIterValue, f) == column_iter(f, "into_iter"@),
        field_line(LineKind::IterRefValue, f) == column_iter(f, "iter"@),
        field_line(LineKind::IterMutValue, f) == column_iter(f, "iter_mut"@),
        field_line(LineKind::AsPtr, f) == column_iter(f, "as_ptr"@),
        field_line(LineKind::AsMutPtr, f) == column_iter(f, "as_mut_ptr"@),
{
}

proof fn lemma_each_lines(kind: LineKind, fs: Seq<Field>, line: spec_fn(Field) -> Seq<char>)
    requires
        forall|f: Field| #[trigger] line(f) == field_line(kind, f),
    ensures
        each(fs, line) == field_lines(kind, fs),
    decreases fs.len(),
{
    if fs.len() > 0 {
        lemma_each_lines(kind, fs.drop_last(), line);
        assert(line(fs.last()) == field_line(kind, fs.last()));
    }
}

proof fn lemma_derive_is_expansion(ident: String, fields: Vec<Field>)
    requires
        fields@.len() >= 1,
    ensures
        spec_derive_soa(named_struct(ident, fields)) == Ok::<Seq<char>, SoaError>(
            expansion(names_for(ident@), fields@),
        ),
{
}

/// `push(item)` appends one row: it pushes each field of `item` at the end
/// of that field's column.
pub proof fn lemma_push_appends_each_field(ident: String, fields: Vec<Field>)
    requires
        fields@.len() >= 1,
    ensures
        spec_derive_soa(named_struct(ident, fields)) matches Ok(code) && contains(
            code,
            "pub fn push(&mut self, item: "@ + ident@ + ") { "@ + each(
                fields@,
                |f: Field| column_push(f, "item"@),
            ) + "} "@,
        ),
{
    let n = names_for(ident@);
    let fs = fields@;
    lemma_derive_is_expansion(ident, fields);
    let line = |f: Field| column_push(f, "item"@);
    assert forall|f: Field| #[trigger] line(f) == field_line(LineKind::Push, f) by {
        lemma_field_line_shapes(f);
    }
    lemma_each_lines(LineKind::Push, fs, line);
    let m = push_method(n, fs);
    lemma_contains_suffix(as_ptr_method(n, fs) + get_method(n, fs) + get_mut_method(n, fs), m);
    lemma_contains_right(
        as_ptr_method(n, fs) + get_method(n, fs) + get_mut_method(n, fs) + m,
        m,
        soa_impl_rest(n, fs),
    );
    lemma_item_in_expansion(n, fs, m);
}

/// `extend(iter)` appends the items of `iter` as rows, in iteration order:
/// for each item `x` it pushes each field of `x` at the end of that field's
/// column.
pub proof fn lemma_extend_appends_each_item(ident: String, fields: Vec<Field>)
    requires
        fields@.len() >= 1,
    ensures
        spec_derive_soa(named_struct(ident, fields)) matches Ok(code) && contains(
            code,
            "impl Extend<"@ + ident@ + "> for "@ + suffixed(ident@, "Soa"@)
                + " { fn extend<I: IntoIterator<Item = "@ + ident@
                + ">>(&mut self, iter: I) { for x in iter { "@ + each(
                fields@,
                |f: Field| column_push(f, "x"@),
            ) + "} } } "@,
        ),
{
    let n = names_for(ident@);
    let fs = fields@;
    lemma_derive_is_expansion(ident, fields);
    let line = |f: Field| column_push(f, "x"@);
    assert forall|f: Field| #[trigger] line(f) == field_line(LineKind::ExtendPush, f) by {
        lemma_field_line_shapes(f);
    }
    lemma_each_lines(LineKind::ExtendPush, fs, line);
    lemma_contains_suffix(default_from_impls(n, fs), extend_impl(n, fs));
    lemma_item_in_expansion(n, fs, extend_impl(n, fs));
}

/// `get(index)` and `get_mut(index)` read the row at `index`: the first
/// column is read with `get(index)` or `get_mut(index)`, and every other field
/// is borrowed at `index` of its own column.
pub proof fn lemma_get_reads_the_row_at_index(ident: String, fields: Vec<Field>)
    requires
        fields@.len() >= 1,
    ensures
        spec_derive_soa(named_struct(ident, fields)) matches Ok(code) && contains(
            code,
            "pub fn get(&self, index: usize) -> Option<"@ + suffixed(ident@, "Ref"@) + "> { "@
                + row_read(
                fields@,
                "get(index)"@,
                each(fields@.skip(1), |f: Field| row_binding(f, "&"@)),
                suffixed(ident@, "Ref"@),
            ) + " } "@,
        ) && contains(
            code,
            "pub fn get_mut(&mut self, index: usize) -> Option<"@ + suffixed(ident@, "Mut"@)
                + "> { "@ + row_read(
                fields@,
                "get_mut(index)"@,
                each(fields@.skip(1), |f: Field| row_binding(f, "&mut "@)),
                suffixed(ident@, "Mut"@),
            ) + " } "@,
        ),
{
    let n = names_for(ident@);
    let fs = fields@;
    lemma_derive_is_expansion(ident, fields);
    let shared = |f: Field| row_binding(f, "&"@);
    let unique = |f: Field| row_binding(f, "&mut "@);
    assert forall|f: Field| #[trigger] shared(f) == field_line(LineKind::GetLet, f) by {
        lemma_field_line_shapes(f);
    }
    assert forall|f: Field| #[trigger] unique(f) == field_line(LineKind::GetMutLet, f) by {
        lemma_field_line_shapes(f);
    }
    lemma_each_lines(LineKind::GetLet, fs.skip(1), shared);
    lemma_each_lines(LineKind::GetMutLet, fs.skip(1), unique);
    let a = as_ptr_method(n, fs);
    let g = get_method(n, fs);
    let gm = get_mut_method(n, fs);
    let p = push_method(n, fs);
    let r = soa_impl_rest(n, fs);
    lemma_contains_suffix(a, g);
    lemma_contains_right(a + g, g, gm);
    lemma_contains_right(a + g + gm, g, p);
    lemma_contains_right(a + g + gm + p, g, r);
    lemma_item_in_expansion(n, fs, g);
    lemma_contains_suffix(a + g, gm);
    lemma_contains_right(a + g + gm, gm, p);
    lemma_contains_right(a + g + gm + p, gm, r);
    lemma_item_in_expansion(n, fs, gm);
}

/// The three row iterators advance all columns together: each `next` takes
/// the next item of the first column with `next()` and the next item of every
/// other column with `next()`, so the k-th row holds the k-th element of every
/// column.
pub proof fn lemma_row_iterators_advance_columns_together(ident: String, fields: Vec<Field>)
    requires
        fields@.len() >= 1,
    ensures
        ({
            let bindings = each(fields@.skip(1), |f: Field| advance_binding(f, "next()"@));
            let name = ident@;
            spec_derive_soa(named_struct(ident, fields)) matches Ok(code) && contains(
                code,
                "impl Iterator for "@ + suffixed(name, "Iter"@) + " { type Item = "@ + name
                    + "; fn next(&mut self) -> Option<Self::Item> { "@ + row_read(
                    fields@,
                    "next()"@,
                    bindings,
                    name,
                ) + " } } "@,
            ) && contains(
                code,
                "impl<'a> Iterator for "@ + suffixed(name, "IterRef"@) + "<'a> { type Item = "@
                    + suffixed(name, "Ref"@) + "<'a>; fn next(&mut self) -> Option<Self::Item> { "@
                    + row_read(fields@, "next()"@, bindings, suffixed(name, "Ref"@)) + " } } "@,
            ) && contains(
                code,
                "impl<'a> Iterator for "@ + suffixed(name, "IterMut"@) + "<'a> { type Item = "@
                    + suffixed(name, "Mut"@) + "<'a>; fn next(&mut self) -> Option<Self::Item> { "@
                    + row_read(fields@, "next()"@, bindings, suffixed(name, "Mut"@)) + " } } "@,
            )
        }),
{
    let n = names_for(ident@);
    let fs = fields@;
    lemma_derive_is_expansion(ident, fields);
    let line = |f: Field| advance_binding(f, "next()"@);
    assert forall|f: Field| #[trigger] line(f) == field_line(LineKind::NextLet, f) by {
        lemma_field_line_shapes(f);
    }
    lemma_each_lines(LineKind::NextLet, fs.skip(1), line);
    lemma_contains_suffix(owned_structs(n, fs), owned_next_impl(n, fs));
    lemma_contains_right(owned_structs(n, fs) + owned_next_impl(n, fs), owned_next_impl(n, fs), owned_into_iter_impl(n, fs));
    lemma_item_in_expansion(n, fs, owned_next_impl(n, fs));
    lemma_contains_suffix(shared_structs(n, fs), shared_next_impl(n, fs));
    lemma_contains_right(shared_structs(n, fs) + shared_next_impl(n, fs), shared_next_impl(n, fs), shared_into_iter_impl(n, fs));
    lemma_item_in_expansion(n, fs, shared_next_impl(n, fs));
    lemma_contains_suffix(mutable_structs(n, fs), mutable_next_impl(n, fs));
    lemma_contains_right(mutable_structs(n, fs) + mutable_next_impl(n, fs), mutable_next_impl(n, fs), mutable_into_iter_impl(n, fs));
    lemma_item_in_expansion(n, fs, mutable_next_impl(n, fs));
}

/// Iterating the collection by value, by shared and by mutable reference
/// starts every column's iterator at its first element, with `into_iter`,
/// `iter` and `iter_mut`.
pub proof fn lemma_into_iter_takes_every_column(ident: String, fields: Vec<Field>)
    requires
        fields@.len() >= 1,
    ensures
        ({
            let name = ident@;
            spec_derive_soa(named_struct(ident, fields)) matches Ok(code) && contains(
                code,
                "impl IntoIterator for "@ + suffixed(name, "Soa"@) + " { type Item = "@ + name
                    + "; type IntoIter = "@ + suffixed(name, "Iter"@)
                    + "; fn into_iter(self) -> Self::IntoIter { "@ + suffixed(name, "Iter"@)
                    + " { "@ + each(fields@, |f: Field| column_iter(f, "into_iter"@))
                    + "} } } "@,
            ) && contains(
                code,
                "impl<'a> IntoIterator for &'a "@ + suffixed(name, "Soa"@) + " { type Item = "@
                    + suffixed(name, "Ref"@) + "<'a>; type IntoIter = "@ + suffixed(name, "IterRef"@)
                    + "<'a>; fn into_iter(self) -> Self::IntoIter { "@ + suffixed(name, "IterRef"@)
                    + " { "@ + each(fields@, |f: Field| column_iter(f, "iter"@)) + "} } } "@,
            ) && contains(
                code,
                "impl<'a> IntoIterator for &'a mut "@ + suffixed(name, "Soa"@) + " { type Item = "@
                    + suffixed(name, "Mut"@) + "<'a>; type IntoIter = "@ + suffixed(name, "IterMut"@)
                    + "<'a>; fn into_iter(self) -> Self::IntoIter { "@ + suffixed(name, "IterMut"@)
                    + " { "@ + each(fields@, |f: Field| column_iter(f, "iter_mut"@)) + "} } } "@,
            )
        }),
{
    let n = names_for(ident@);
    let fs = fields@;
    lemma_derive_is_expansion(ident, fields);
    let owned = |f: Field| column_iter(f, "into_iter"@);
    let shared = |f: Field| column_iter(f, "iter"@);
    let unique = |f: Field| column_iter(f, "iter_mut"@);
    assert forall|f: Field| #[trigger] owned(f) == field_line(LineKind::IntoIterValue, f) by {
        lemma_field_line_shapes(f);
    }
    assert forall|f: Field| #[trigger] shared(f) == field_line(LineKind::IterRefValue, f) by {
        lemma_field_line_shapes(f);
    }
    assert forall|f: Field| #[trigger] unique(f) == field_line(LineKind::IterMutValue, f) by {
        lemma_field_line_shapes(f);
    }
    lemma_each_lines(LineKind::IntoIterValue, fs, owned);
    lemma_each_lines(LineKind::IterRefValue, fs, shared);
    lemma_each_lines(LineKind::IterMutValue, fs, unique);
    lemma_contains_suffix(owned_structs(n, fs) + owned_next_impl(n, fs), owned_into_iter_impl(n, fs));
    lemma_item_in_expansion(n, fs, owned_into_iter_impl(n, fs));
    lemma_contains_suffix(shared_structs(n, fs) + shared_next_impl(n, fs), shared_into_iter_impl(n, fs));
    lemma_item_in_expansion(n, fs, shared_into_iter_impl(n, fs));
    lemma_contains_suffix(mutable_structs(n, fs) + mutable_next_impl(n, fs), mutable_into_iter_impl(n, fs));
    lemma_item_in_expansion(n, fs, mutable_into_iter_impl(n, fs));
}

/// The ordered parallel merge keeps the input order: every chunk of a thread
/// enters the heap of pending chunks keyed by its position `pos.idx`, both when
/// the heap is first filled and when a thread moves on to its next chunk, so
/// the chunks are copied in ascending position.
pub proof fn lemma_ordered_merge_keys_chunks_by_position(ident: String, fields: Vec<Field>)
    requires
        fields@.len() >= 1,
        all_send(fields@),
    ensures
        spec_derive_soa(named_struct(ident, fields)) matches Ok(code) && contains(
            code,
            "queue.push(node, pos.idx); "@,
        ) && contains(code, "Some(queue.push_then_pop(node, pos.idx).0) "@),
{
    let n = names_for(ident@);
    let fs = fields@;
    lemma_derive_is_expansion(ident, fields);
    let k1 = "queue.push(node, pos.idx); "@;
    let k2 = "Some(queue.push_then_pop(node, pos.idx).0) "@;
    let m = ordered_merge();
    lemma_contains_suffix(merge_setup(), k1);
    lemma_contains_right(merge_setup() + k1, k1, merge_loop());
    lemma_contains_right(merge_setup() + k1 + merge_loop(), k1, k2);
    lemma_contains_right(merge_setup() + k1 + merge_loop() + k2, k1, merge_end());
    lemma_contains_mid(merge_setup() + k1 + merge_loop(), k2, merge_end());
    lemma_contains_suffix(par_extend_head(n), m);
    lemma_contains_right(par_extend_head(n) + m, m, "} "@);
    lemma_contains_trans(par_extend_items(n), m, k1);
    lemma_contains_trans(par_extend_items(n), m, k2);
    lemma_item_in_expansion(n, fs, k1);
    lemma_item_in_expansion(n, fs, k2);
}

/// The column pointer type `{name}Ptr` holds one `*const` pointer per column; it is `Clone` and `Copy`, and `add(count)` advances every column pointer by `count`.
pub proof fn lemma_column_pointers(ident: String, fields: Vec<Field>)
    requires
        fields@.len() >= 1,
    ensures
        spec_derive_soa(named_struct(ident, fields)) matches Ok(code) && contains(
            code,
            "pub struct "@ + suffixed(ident@, "Ptr"@) + " { "@ + field_lines(LineKind::PtrField, fields@) + "} impl Clone for "@ + suffixed(ident@, "Ptr"@) + " { fn clone(&self) -> Self { Self { "@ + field_lines(LineKind::CopyField, fields@) + "} } } impl Copy for "@ + suffixed(ident@, "Ptr"@) + " {} impl "@ + suffixed(ident@, "Ptr"@) + " { pub unsafe fn add(self, count: usize) -> Self { Self { "@ + field_lines(LineKind::PtrAdd, fields@) + "} } } "@,
        ),
{
    lemma_derive_is_expansion(ident, fields);
    lemma_parts_in_expansion(names_for(ident@), fields@);
}

/// The mutable column pointer type `{name}MutPtr` holds one `*mut` pointer per column; `add(count)` advances every column pointer by `count`, and `copy_from_nonoverlapping(src, count)` copies `count` elements into every column from the same column of `src`.
pub proof fn lemma_mutable_column_pointers(ident: String, fields: Vec<Field>)
    requires
        fields@.len() >= 1,
    ensures
        spec_derive_soa(named_struct(ident, fields)) matches Ok(code) && contains(
            code,
            "pub struct "@ + suffixed(ident@, "MutPtr"@) + " { "@ + field_lines(LineKind::MutPtrField, fields@) + "} impl Clone for "@ + suffixed(ident@, "MutPtr"@) + " { fn clone(&self) -> Self { Self { "@ + field_lines(LineKind::CopyField, fields@) + "} } } impl Copy for "@ + suffixed(ident@, "MutPtr"@) + " {} impl "@ + suffixed(ident@, "MutPtr"@) + " { pub unsafe fn add(self, count: usize) -> Self { Self { "@ + field_lines(LineKind::PtrAdd, fields@) + "} } pub unsafe fn copy_from_nonoverlapping(self, src: "@ + suffixed(ident@, "Ptr"@) + ", count: usize) { "@ + field_lines(LineKind::PtrCopy, fields@) + "} } "@,
        ),
{
    lemma_derive_is_expansion(ident, fields);
    lemma_parts_in_expansion(names_for(ident@), fields@);
}

/// The collection's `new` and `with_capacity` start every column empty (with room for `capacity` items); `len` and `is_empty` are those of the first column; `into_inner` gives the columns in field order; and each field has a method that lends its column as a slice and one that lends it as a mutable slice.
pub proof fn lemma_collection_constructors_and_columns(ident: String, fields: Vec<Field>)
    requires
        fields@.len() >= 1,
    ensures
        spec_derive_soa(named_struct(ident, fields)) matches Ok(code) && contains(
            code,
            "impl "@ + suffixed(ident@, "Soa"@) + " { pub fn new() -> Self { Self { "@ + field_lines(LineKind::VecNew, fields@) + "} } pub fn with_capacity(capacity: usize) -> Self { Self { "@ + field_lines(LineKind::VecWithCapacity, fields@) + "} } pub fn len(&self) -> usize { self."@ + fields@[0].ident@ + ".len() } pub fn is_empty(&self) -> bool { self."@ + fields@[0].ident@ + ".is_empty() } pub fn into_inner(self) -> ("@ + field_lines(LineKind::VecType, fields@) + ") { ("@ + field_lines(LineKind::IntoInner, fields@) + ") } "@ + field_lines(LineKind::Accessor, fields@) + field_lines(LineKind::MutAccessor, fields@),
        ),
{
    lemma_derive_is_expansion(ident, fields);
    lemma_parts_in_expansion(names_for(ident@), fields@);
}

/// `as_ptr` gives a pointer to the start of every column.
pub proof fn lemma_as_ptr_points_to_every_column(ident: String, fields: Vec<Field>)
    requires
        fields@.len() >= 1,
    ensures
        spec_derive_soa(named_struct(ident, fields)) matches Ok(code) && contains(
            code,
            "pub fn as_ptr(&self) -> "@ + suffixed(ident@, "Ptr"@) + " { "@ + suffixed(ident@, "Ptr"@) + " { "@ + field_lines(LineKind::AsPtr, fields@) + "} } "@,
        ),
{
    lemma_derive_is_expansion(ident, fields);
    lemma_parts_in_expansion(names_for(ident@), fields@);
}

/// `as_mut_ptr` gives a mutable pointer to the start of every column, and `reserve(additional)` and `set_len(new_len)` apply to every column.
pub proof fn lemma_reserve_and_set_len_apply_to_every_column(ident: String, fields: Vec<Field>)
    requires
        fields@.len() >= 1,
    ensures
        spec_derive_soa(named_struct(ident, fields)) matches Ok(code) && contains(
            code,
            "pub fn as_mut_ptr(&mut self) -> "@ + suffixed(ident@, "MutPtr"@) + " { "@ + suffixed(ident@, "MutPtr"@) + " { "@ + field_lines(LineKind::AsMutPtr, fields@) + "} } pub fn reserve(&mut self, additional: usize) { "@ + field_lines(LineKind::Reserve, fields@) + "} pub unsafe fn set_len(&mut self, new_len: usize) { "@ + field_lines(LineKind::SetLen, fields@) + "} } "@,
        ),
{
    lemma_derive_is_expansion(ident, fields);
    lemma_parts_in_expansion(names_for(ident@), fields@);
}

/// The default collection is the empty one, and converting a collection into a tuple gives its columns in field order.
pub proof fn lemma_default_and_from_columns(ident: String, fields: Vec<Field>)
    requires
        fields@.len() >= 1,
    ensures
        spec_derive_soa(named_struct(ident, fields)) matches Ok(code) && contains(
            code,
            "impl Default for "@ + suffixed(ident@, "Soa"@) + " { fn default() -> Self { Self::new() } } impl From<"@ + suffixed(ident@, "Soa"@) + "> for ("@ + field_lines(LineKind::VecType, fields@) + ") { fn from(value: "@ + suffixed(ident@, "Soa"@) + ") -> Self { ("@ + field_lines(LineKind::FromValue, fields@) + ") } } "@,
        ),
{
    lemma_derive_is_expansion(ident, fields);
    lemma_parts_in_expansion(names_for(ident@), fields@);
}

/// The owning iterator holds one `Vec` iterator per column.
pub proof fn lemma_owned_iterator_holds_every_column(ident: String, fields: Vec<Field>)
    requires
        fields@.len() >= 1,
    ensures
        spec_derive_soa(named_struct(ident, fields)) matches Ok(code) && contains(
            code,
            "pub struct "@ + suffixed(ident@, "Iter"@) + " { "@ + field_lines(LineKind::IntoIterField, fields@) + "} "@,
        ),
{
    lemma_derive_is_expansion(ident, fields);
    lemma_parts_in_expansion(names_for(ident@), fields@);
}

/// A shared row holds a shared reference per field, and the shared iterator one slice iterator per column.
pub proof fn lemma_shared_rows_hold_every_field(ident: String, fields: Vec<Field>)
    requires
        fields@.len() >= 1,
    ensures
        spec_derive_soa(named_struct(ident, fields)) matches Ok(code) && contains(
            code,
            "#[derive(Clone, Copy, PartialEq, Eq, Debug)] pub struct "@ + suffixed(ident@, "Ref"@) + "<'a> { "@ + field_lines(LineKind::RefField, fields@) + "} pub struct "@ + suffixed(ident@, "IterRef"@) + "<'a> { "@ + field_lines(LineKind::IterRefField, fields@) + "} "@,
        ),
{
    lemma_derive_is_expansion(ident, fields);
    lemma_parts_in_expansion(names_for(ident@), fields@);
}

/// A mutable row holds a mutable reference per field, and the mutable iterator one mutable slice iterator per column.
pub proof fn lemma_mutable_rows_hold_every_field(ident: String, fields: Vec<Field>)
    requires
        fields@.len() >= 1,
    ensures
        spec_derive_soa(named_struct(ident, fields)) matches Ok(code) && contains(
            code,
            "#[derive(PartialEq, Eq, Debug)] pub struct "@ + suffixed(ident@, "Mut"@) + "<'a> { "@ + field_lines(LineKind::MutRefField, fields@) + "} pub struct "@ + suffixed(ident@, "IterMut"@) + "<'a> { "@ + field_lines(LineKind::IterMutField, fields@) + "} "@,
        ),
{
    lemma_derive_is_expansion(ident, fields);
    lemma_parts_in_expansion(names_for(ident@), fields@);
}

/// The parallel-extend implementation pushes every value of a thread, records each ordered value or run of values with its position, and merges unordered thread results by reserving their total length and extending the collection with each in turn.
pub proof fn lemma_parallel_extend_pushes_and_merges(ident: String, fields: Vec<Field>)
    requires
        fields@.len() >= 1,
        all_send(fields@),
    ensures
        spec_derive_soa(named_struct(ident, fields)) matches Ok(code) && contains(
            code,
            "use ::orx_priority_queue::PriorityQueue as _; impl ::orx_parallel::collectables::ParExtendCore<"@ + ident@ + "> for "@ + suffixed(ident@, "Soa"@) + " { type ThreadValues = Self; type OrderedThreadValues = ::orx_parallel::collectables::ColAndPos<Self>; "@ + "fn new_thread_values() -> Self::ThreadValues { Default::default() } "@ + "fn new_ordered_thread_values() -> Self::OrderedThreadValues { Default::default() } "@ + "fn add_thread_value(collected: &mut Self::ThreadValues, value: "@ + ident@ + ") { collected.push(value); } "@ + "fn add_thread_values(collected: &mut Self::ThreadValues, values: impl IntoIterator<Item = "@ + ident@ + ">) { collected.extend(values); } "@ + "fn add_ordered_thread_value(collected: &mut Self::OrderedThreadValues, idx: usize, value: "@ + ident@ + ") { collected.values.push(value); collected.positions.push(::orx_parallel::collectables::IdxLen { idx, len: 1 }); } "@ + "fn add_ordered_thread_values(collected: &mut Self::OrderedThreadValues, idx: usize, values: impl IntoIterator<Item = "@ + ident@ + ">) { let len_begin = collected.values.len(); collected.values.extend(values); let len = collected.values.len() - len_begin; "@ + "if len > 0 { collected.positions.push(::orx_parallel::collectables::IdxLen { idx, len }); } } "@ + "fn add_ordered_thread_optionals(collected: &mut Self::OrderedThreadValues, idx: usize, values: impl IntoIterator<Item = Option<"@ + ident@ + ">>) -> Option<()> { let len_begin = collected.values.len(); for value in values { collected.values.push(value?); } "@ + "let len = collected.values.len() - len_begin; if len > 0 { collected.positions.push(::orx_parallel::collectables::IdxLen { idx, len }); } Some(()) } "@ + "fn add_ordered_thread_fallibles<E>(collected: &mut Self::OrderedThreadValues, idx: usize, values: impl IntoIterator<Item = Result<"@ + ident@ + ", E>>) -> Result<(), E> { let len_begin = collected.values.len(); for value in values { collected.values.push(value?); } "@ + "let len = collected.values.len() - len_begin; if len > 0 { collected.positions.push(::orx_parallel::collectables::IdxLen { idx, len }); } Ok(()) } "@ + "fn add_one(&mut self, value: "@ + ident@ + ") { self.push(value); } "@ + "fn extend_merge_infallibles(&mut self, results: Vec<Self::ThreadValues>) { let collected_len: usize = results.iter().map(|x| x.len()).sum(); "@ + "self.reserve(collected_len); for result in results { self.extend(result); } } "@,
        ),
{
    lemma_derive_is_expansion(ident, fields);
    lemma_parts_in_expansion(names_for(ident@), fields@);
}

/// The ordered merge reserves the total length of the thread results, then fills the heap with the first chunk of every thread.
pub proof fn lemma_ordered_merge_setup(ident: String, fields: Vec<Field>)
    requires
        fields@.len() >= 1,
        all_send(fields@),
    ensures
        spec_derive_soa(named_struct(ident, fields)) matches Ok(code) && contains(
            code,
            "fn extend_merge_ordered_infallibles(&mut self, mut results: Vec<Self::OrderedThreadValues>) { let collected_len: usize = results.iter().map(|x| x.values.len()).sum(); "@ + "self.reserve(collected_len); let initial_len = self.len(); let total_len = initial_len + collected_len; "@ + "let mut queue = ::orx_priority_queue::BinaryHeap::with_capacity(results.len()); let mut pos_indices = ::std::vec![0; "@ + "results.len()]; for (t, vec) in results.iter().enumerate() { if let Some(pos) = vec.positions.first() { let node = ::orx_parallel::collectables::ThBegLen::new(t, 0, pos.len); "@ + ""@,
        ),
{
    lemma_derive_is_expansion(ident, fields);
    lemma_parts_in_expansion(names_for(ident@), fields@);
}

/// The ordered merge copies each chunk it takes from the heap behind the rows already written and moves that thread on to its next chunk.
pub proof fn lemma_ordered_merge_copies_chunks(ident: String, fields: Vec<Field>)
    requires
        fields@.len() >= 1,
        all_send(fields@),
    ensures
        spec_derive_soa(named_struct(ident, fields)) matches Ok(code) && contains(
            code,
            "} } let mut curr_t = queue.pop_node(); let mut ptr_dst = unsafe { self.as_mut_ptr().add(initial_len) }; "@ + "while let Some(::orx_parallel::collectables::ThBegLen { th, beg, len }) = curr_t { let ptr_src = unsafe { results[th].values.as_ptr().add(beg) }; "@ + "unsafe { ptr_dst.copy_from_nonoverlapping(ptr_src, len) }; pos_indices[th] += 1; "@ + "curr_t = match results[th].positions.get(pos_indices[th]) { Some(pos) => { let beg = beg + len; "@ + "let node = ::orx_parallel::collectables::ThBegLen::new(th, beg, pos.len); "@,
        ),
{
    lemma_derive_is_expansion(ident, fields);
    lemma_parts_in_expansion(names_for(ident@), fields@);
}

/// The ordered merge ends by emptying every thread result without dropping its values and setting the collection's length to the old length plus the total.
pub proof fn lemma_ordered_merge_end(ident: String, fields: Vec<Field>)
    requires
        fields@.len() >= 1,
        all_send(fields@),
    ensures
        spec_derive_soa(named_struct(ident, fields)) matches Ok(code) && contains(
            code,
            "} None => queue.pop_node(), }; ptr_dst = unsafe { ptr_dst.add(len) }; } for vec in results.iter_mut() { unsafe { vec.values.set_len(0) }; "@ + "} unsafe { self.set_len(total_len) }; } "@,
        ),
{
    lemma_derive_is_expansion(ident, fields);
    lemma_parts_in_expansion(names_for(ident@), fields@);
}

/// The text of every kind of per-field line, for any field `f`.
pub proof fn lemma_field_line_texts(f: Field)
    ensures
        field_line(LineKind::PtrField, f) == "pub "@ + f.ident@ + ": *const "@ + f.ty@ + ", "@,
        field_line(LineKind::MutPtrField, f) == "pub "@ + f.ident@ + ": *mut "@ + f.ty@ + ", "@,
        field_line(LineKind::CopyField, f) == f.ident@ + ": self."@ + f.ident@ + ", "@,
        field_line(LineKind::PtrAdd, f) == f.ident@ + ": unsafe { self."@ + f.ident@ + ".add(count) }, "@,
        field_line(LineKind::PtrCopy, f) == "unsafe { self."@ + f.ident@ + ".copy_from_nonoverlapping(src."@ + f.ident@ + ", count) }; "@,
        field_line(LineKind::VecField, f) == f.ident@ + ": Vec<"@ + f.ty@ + ">, "@,
        field_line(LineKind::VecNew, f) == f.ident@ + ": Vec::new(), "@,
        field_line(LineKind::VecWithCapacity, f) == f.ident@ + ": Vec::with_capacity(capacity), "@,
        field_line(LineKind::VecType, f) == "Vec<"@ + f.ty@ + ">, "@,
        field_line(LineKind::IntoInner, f) == "self"@ + "."@ + f.ident@ + ", "@,
        field_line(LineKind::Accessor, f) == "pub fn "@ + f.ident@ + "(&self) -> &["@ + f.ty@ + "] { &self."@ + f.ident@ + " } "@,
        field_line(LineKind::MutAccessor, f) == "pub fn "@ + fragment_of(f.ident@) + "_mut(&mut self) -> &mut ["@ + f.ty@ + "] { &mut self."@ + f.ident@ + " } "@,
        field_line(LineKind::AsPtr, f) == f.ident@ + ": self."@ + f.ident@ + "."@ + "as_ptr"@ + "(), "@,
        field_line(LineKind::AsMutPtr, f) == f.ident@ + ": self."@ + f.ident@ + "."@ + "as_mut_ptr"@ + "(), "@,
        field_line(LineKind::GetLet, f) == "let "@ + f.ident@ + " = "@ + "&"@ + "self."@ + f.ident@ + "[index]; "@,
        field_line(LineKind::GetMutLet, f) == "let "@ + f.ident@ + " = "@ + "&mut "@ + "self."@ + f.ident@ + "[index]; "@,
        field_line(LineKind::Push, f) == "self."@ + f.ident@ + ".push("@ + "item"@ + "."@ + f.ident@ + "); "@,
        field_line(LineKind::Reserve, f) == "self."@ + f.ident@ + ".reserve(additional); "@,
        field_line(LineKind::SetLen, f) == "unsafe { self."@ + f.ident@ + ".set_len(new_len) }; "@,
        field_line(LineKind::FromValue, f) == "value"@ + "."@ + f.ident@ + ", "@,
        field_line(LineKind::ExtendPush, f) == "self."@ + f.ident@ + ".push("@ + "x"@ + "."@ + f.ident@ + "); "@,
        field_line(LineKind::IntoIterField, f) == f.ident@ + ": ::std::vec::IntoIter<"@ + f.ty@ + ">, "@,
        field_line(LineKind::IterRefField, f) == f.ident@ + ": ::core::slice::Iter<'a, "@ + f.ty@ + ">, "@,
        field_line(LineKind::IterMutField, f) == f.ident@ + ": ::core::slice::IterMut<'a, "@ + f.ty@ + ">, "@,
        field_line(LineKind::IntoIterValue, f) == f.ident@ + ": self."@ + f.ident@ + "."@ + "into_iter"@ + "(), "@,
        field_line(LineKind::IterRefValue, f) == f.ident@ + ": self."@ + f.ident@ + "."@ + "iter"@ + "(), "@,
        field_line(LineKind::IterMutValue, f) == f.ident@ + ": self."@ + f.ident@ + "."@ + "iter_mut"@ + "(), "@,
        field_line(LineKind::NextLet, f) == "let "@ + f.ident@ + " = unsafe { self."@ + f.ident@ + "."@ + "next()"@ + ".unwrap_unchecked() }; "@,
        field_line(LineKind::RefField, f) == f.ident@ + ": &'a "@ + f.ty@ + ", "@,
        field_line(LineKind::MutRefField, f) == f.ident@ + ": &'a mut "@ + f.ty@ + ", "@,
{
}

} // verus!
