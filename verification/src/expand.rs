//! The source text of the struct-of-arrays companion of a struct.
use vstd::prelude::*;
use crate::input::{Data, DeriveInput, Field, Fields};
use crate::lines::{
    LineKind, field_lines, field_lines_text, field_list, field_list_text,
};
use crate::names::{GeneratedNames, NamesView, generated_names, names_for};
use crate::send::{all_send, fields_are_send};

verus! {

/// The body of a method that reads one row through a call on the first
/// column: `call` gives the first field's item, the other fields are bound by
/// lines of `let_kind`, and the row is built as a `target`.
pub open spec fn access_body(fs: Seq<Field>, call: Seq<char>, let_kind: LineKind, target: Seq<char>) -> Seq<char> {
    if fs.len() == 1 {
        "self."@ + fs[0].ident@ + "."@ + call + ".map(|"@ + fs[0].ident@ + "| "@ + target + " { "@ + fs[0].ident@ + " })"@
    } else {
        "self."@ + fs[0].ident@ + "."@ + call + ".map(|"@ + fs[0].ident@ + "| { "@
            + field_lines(let_kind, fs.skip(1)) + target + " { "@ + field_list(fs) + " } })"@
    }
}

/// Returns the body of a row-reading method; see `access_body`.
pub fn access_body_text(fs: &Vec<Field>, call: &str, let_kind: &LineKind, target: &String) -> (res: String)
    requires
        fs.len() >= 1,
    ensures
        res@ == access_body(fs@, call@, *let_kind, target@),
{
    let first = fs[0].ident.as_str();
    let mut s = String::from_str("self.");
    s.append(first);
    s.append(".");
    s.append(call);
    s.append(".map(|");
    s.append(first);
    if fs.len() == 1 {
        s.append("| ");
        s.append(target.as_str());
        s.append(" { ");
        s.append(first);
        s.append(" })");
    } else {
        s.append("| { ");
        let lets = field_lines_text(let_kind, fs, 1);
        s.append(lets.as_str());
        s.append(target.as_str());
        s.append(" { ");
        let list = field_list_text(fs);
        s.append(list.as_str());
        s.append(" } })");
    }
    s
}

/// The source text of the column pointer type `{name}Ptr`: its declaration, `Clone`, `Copy` and `add`.
pub open spec fn ptr_items(n: NamesView, fs: Seq<Field>) -> Seq<char> {
    "pub struct "@
        + n.ptr
        + " { "@
        + field_lines(LineKind::PtrField, fs)
        + "} impl Clone for "@
        + n.ptr
        + " { fn clone(&self) -> Self { Self { "@
        + field_lines(LineKind::CopyField, fs)
        + "} } } impl Copy for "@
        + n.ptr
        + " {} impl "@
        + n.ptr
        + " { pub unsafe fn add(self, count: usize) -> Self { Self { "@
        + field_lines(LineKind::PtrAdd, fs)
        + "} } } "@
}

/// Returns the source text of the column pointer type `{name}Ptr`: its declaration, `Clone`, `Copy` and `add`.
pub fn ptr_items_text(n: &GeneratedNames, fs: &Vec<Field>) -> (res: String)
    requires
        fs.len() >= 1,
    ensures
        res@ == ptr_items(n@, fs@),
{
    let mut s = String::from_str("pub struct ");
    s.append(n.ptr.as_str());
    s.append(" { ");
    let t = field_lines_text(&LineKind::PtrField, fs, 0);
    s.append(t.as_str());
    s.append("} impl Clone for ");
    s.append(n.ptr.as_str());
    s.append(" { fn clone(&self) -> Self { Self { ");
    let t = field_lines_text(&LineKind::CopyField, fs, 0);
    s.append(t.as_str());
    s.append("} } } impl Copy for ");
    s.append(n.ptr.as_str());
    s.append(" {} impl ");
    s.append(n.ptr.as_str());
    s.append(" { pub unsafe fn add(self, count: usize) -> Self { Self { ");
    let t = field_lines_text(&LineKind::PtrAdd, fs, 0);
    s.append(t.as_str());
    s.append("} } } ");
    s
}

/// The source text of the mutable column pointer type `{name}MutPtr`: its declaration, `Clone`, `Copy`, `add` and `copy_from_nonoverlapping`.
pub open spec fn mut_ptr_items(n: NamesView, fs: Seq<Field>) -> Seq<char> {
    "pub struct "@
        + n.mut_ptr
        + " { "@
        + field_lines(LineKind::MutPtrField, fs)
        + "} impl Clone for "@
        + n.mut_ptr
        + " { fn clone(&self) -> Self { Self { "@
        + field_lines(LineKind::CopyField, fs)
        + "} } } impl Copy for "@
        + n.mut_ptr
        + " {} impl "@
        + n.mut_ptr
        + " { pub unsafe fn add(self, count: usize) -> Self { Self { "@
        + field_lines(LineKind::PtrAdd, fs)
        + "} } pub unsafe fn copy_from_nonoverlapping(self, src: "@
        + n.ptr
        + ", count: usize) { "@
        + field_lines(LineKind::PtrCopy, fs)
        + "} } "@
}

/// Returns the source text of the mutable column pointer type `{name}MutPtr`: its declaration, `Clone`, `Copy`, `add` and `copy_from_nonoverlapping`.
pub fn mut_ptr_items_text(n: &GeneratedNames, fs: &Vec<Field>) -> (res: String)
    requires
        fs.len() >= 1,
    ensures
        res@ == mut_ptr_items(n@, fs@),
{
    let mut s = String::from_str("pub struct ");
    s.append(n.mut_ptr.as_str());
    s.append(" { ");
    let t = field_lines_text(&LineKind::MutPtrField, fs, 0);
    s.append(t.as_str());
    s.append("} impl Clone for ");
    s.append(n.mut_ptr.as_str());
    s.append(" { fn clone(&self) -> Self { Self { ");
    let t = field_lines_text(&LineKind::CopyField, fs, 0);
    s.append(t.as_str());
    s.append("} } } impl Copy for ");
    s.append(n.mut_ptr.as_str());
    s.append(" {} impl ");
    s.append(n.mut_ptr.as_str());
    s.append(" { pub unsafe fn add(self, count: usize) -> Self { Self { ");
    let t = field_lines_text(&LineKind::PtrAdd, fs, 0);
    s.append(t.as_str());
    s.append("} } pub unsafe fn copy_from_nonoverlapping(self, src: ");
    s.append(n.ptr.as_str());
    s.append(", count: usize) { ");
    let t = field_lines_text(&LineKind::PtrCopy, fs, 0);
    s.append(t.as_str());
    s.append("} } ");
    s
}

/// The source text of the declaration of the collection `{name}Soa`, one `Vec` per field.
pub open spec fn soa_struct(n: NamesView, fs: Seq<Field>) -> Seq<char> {
    "pub struct "@
        + n.soa
        + " { "@
        + field_lines(LineKind::VecField, fs)
        + "} "@
}

/// Returns the source text of the declaration of the collection `{name}Soa`, one `Vec` per field.
pub fn soa_struct_text(n: &GeneratedNames, fs: &Vec<Field>) -> (res: String)
    requires
        fs.len() >= 1,
    ensures
        res@ == soa_struct(n@, fs@),
{
    let mut s = String::from_str("pub struct ");
    s.append(n.soa.as_str());
    s.append(" { ");
    let t = field_lines_text(&LineKind::VecField, fs, 0);
    s.append(t.as_str());
    s.append("} ");
    s
}

/// The source text of the first half of the collection's inherent methods: constructors, length, columns and slices.
pub open spec fn soa_impl_head(n: NamesView, fs: Seq<Field>) -> Seq<char> {
    "impl "@
        + n.soa
        + " { pub fn new() -> Self { Self { "@
        + field_lines(LineKind::VecNew, fs)
        + "} } pub fn with_capacity(capacity: usize) -> Self { Self { "@
        + field_lines(LineKind::VecWithCapacity, fs)
        + "} } pub fn len(&self) -> usize { self."@
        + fs[0].ident@
        + ".len() } pub fn is_empty(&self) -> bool { self."@
        + fs[0].ident@
        + ".is_empty() } pub fn into_inner(self) -> ("@
        + field_lines(LineKind::VecType, fs)
        + ") { ("@
        + field_lines(LineKind::IntoInner, fs)
        + ") } "@
        + field_lines(LineKind::Accessor, fs)
        + field_lines(LineKind::MutAccessor, fs)
}

/// Returns the source text of the first half of the collection's inherent methods: constructors, length, columns and slices.
pub fn soa_impl_head_text(n: &GeneratedNames, fs: &Vec<Field>) -> (res: String)
    requires
        fs.len() >= 1,
    ensures
        res@ == soa_impl_head(n@, fs@),
{
    let mut s = String::from_str("impl ");
    s.append(n.soa.as_str());
    s.append(" { pub fn new() -> Self { Self { ");
    let t = field_lines_text(&LineKind::VecNew, fs, 0);
    s.append(t.as_str());
    s.append("} } pub fn with_capacity(capacity: usize) -> Self { Self { ");
    let t = field_lines_text(&LineKind::VecWithCapacity, fs, 0);
    s.append(t.as_str());
    s.append("} } pub fn len(&self) -> usize { self.");
    s.append(fs[0].ident.as_str());
    s.append(".len() } pub fn is_empty(&self) -> bool { self.");
    s.append(fs[0].ident.as_str());
    s.append(".is_empty() } pub fn into_inner(self) -> (");
    let t = field_lines_text(&LineKind::VecType, fs, 0);
    s.append(t.as_str());
    s.append(") { (");
    let t = field_lines_text(&LineKind::IntoInner, fs, 0);
    s.append(t.as_str());
    s.append(") } ");
    let t = field_lines_text(&LineKind::Accessor, fs, 0);
    s.append(t.as_str());
    let t = field_lines_text(&LineKind::MutAccessor, fs, 0);
    s.append(t.as_str());
    s
}

/// The source text of the collection's `as_ptr`.
pub open spec fn as_ptr_method(n: NamesView, fs: Seq<Field>) -> Seq<char> {
    "pub fn as_ptr(&self) -> "@
        + n.ptr
        + " { "@
        + n.ptr
        + " { "@
        + field_lines(LineKind::AsPtr, fs)
        + "} } "@
}

/// Returns the source text of the collection's `as_ptr`.
pub fn as_ptr_method_text(n: &GeneratedNames, fs: &Vec<Field>) -> (res: String)
    requires
        fs.len() >= 1,
    ensures
        res@ == as_ptr_method(n@, fs@),
{
    let mut s = String::from_str("pub fn as_ptr(&self) -> ");
    s.append(n.ptr.as_str());
    s.append(" { ");
    s.append(n.ptr.as_str());
    s.append(" { ");
    let t = field_lines_text(&LineKind::AsPtr, fs, 0);
    s.append(t.as_str());
    s.append("} } ");
    s
}

/// The source text of the collection's `get`, which reads the row at `index`.
pub open spec fn get_method(n: NamesView, fs: Seq<Field>) -> Seq<char> {
    "pub fn get(&self, index: usize) -> Option<"@
        + n.ref_name
        + "> { "@
        + access_body(fs, "get(index)"@, LineKind::GetLet, n.ref_name)
        + " } "@
}

/// Returns the source text of the collection's `get`, which reads the row at `index`.
pub fn get_method_text(n: &GeneratedNames, fs: &Vec<Field>) -> (res: String)
    requires
        fs.len() >= 1,
    ensures
        res@ == get_method(n@, fs@),
{
    let mut s = String::from_str("pub fn get(&self, index: usize) -> Option<");
    s.append(n.ref_name.as_str());
    s.append("> { ");
    let t = access_body_text(fs, "get(index)", &LineKind::GetLet, &n.ref_name);
    s.append(t.as_str());
    s.append(" } ");
    s
}

/// The source text of the collection's `get_mut`, which lends the row at `index` mutably.
pub open spec fn get_mut_method(n: NamesView, fs: Seq<Field>) -> Seq<char> {
    "pub fn get_mut(&mut self, index: usize) -> Option<"@
        + n.mut_name
        + "> { "@
        + access_body(fs, "get_mut(index)"@, LineKind::GetMutLet, n.mut_name)
        + " } "@
}

/// Returns the source text of the collection's `get_mut`, which lends the row at `index` mutably.
pub fn get_mut_method_text(n: &GeneratedNames, fs: &Vec<Field>) -> (res: String)
    requires
        fs.len() >= 1,
    ensures
        res@ == get_mut_method(n@, fs@),
{
    let mut s = String::from_str("pub fn get_mut(&mut self, index: usize) -> Option<");
    s.append(n.mut_name.as_str());
    s.append("> { ");
    let t = access_body_text(fs, "get_mut(index)", &LineKind::GetMutLet, &n.mut_name);
    s.append(t.as_str());
    s.append(" } ");
    s
}

/// The source text of the collection's `push`, which appends one row.
pub open spec fn push_method(n: NamesView, fs: Seq<Field>) -> Seq<char> {
    "pub fn push(&mut self, item: "@
        + n.name
        + ") { "@
        + field_lines(LineKind::Push, fs)
        + "} "@
}

/// Returns the source text of the collection's `push`, which appends one row.
pub fn push_method_text(n: &GeneratedNames, fs: &Vec<Field>) -> (res: String)
    requires
        fs.len() >= 1,
    ensures
        res@ == push_method(n@, fs@),
{
    let mut s = String::from_str("pub fn push(&mut self, item: ");
    s.append(n.name.as_str());
    s.append(") { ");
    let t = field_lines_text(&LineKind::Push, fs, 0);
    s.append(t.as_str());
    s.append("} ");
    s
}

/// The source text of the collection's `as_mut_ptr`, `reserve` and `set_len`, closing its inherent methods.
pub open spec fn soa_impl_rest(n: NamesView, fs: Seq<Field>) -> Seq<char> {
    "pub fn as_mut_ptr(&mut self) -> "@
        + n.mut_ptr
        + " { "@
        + n.mut_ptr
        + " { "@
        + field_lines(LineKind::AsMutPtr, fs)
        + "} } pub fn reserve(&mut self, additional: usize) { "@
        + field_lines(LineKind::Reserve, fs)
        + "} pub unsafe fn set_len(&mut self, new_len: usize) { "@
        + field_lines(LineKind::SetLen, fs)
        + "} } "@
}

/// Returns the source text of the collection's `as_mut_ptr`, `reserve` and `set_len`, closing its inherent methods.
pub fn soa_impl_rest_text(n: &GeneratedNames, fs: &Vec<Field>) -> (res: String)
    requires
        fs.len() >= 1,
    ensures
        res@ == soa_impl_rest(n@, fs@),
{
    let mut s = String::from_str("pub fn as_mut_ptr(&mut self) -> ");
    s.append(n.mut_ptr.as_str());
    s.append(" { ");
    s.append(n.mut_ptr.as_str());
    s.append(" { ");
    let t = field_lines_text(&LineKind::AsMutPtr, fs, 0);
    s.append(t.as_str());
    s.append("} } pub fn reserve(&mut self, additional: usize) { ");
    let t = field_lines_text(&LineKind::Reserve, fs, 0);
    s.append(t.as_str());
    s.append("} pub unsafe fn set_len(&mut self, new_len: usize) { ");
    let t = field_lines_text(&LineKind::SetLen, fs, 0);
    s.append(t.as_str());
    s.append("} } ");
    s
}

/// The source text of the second half of the collection's inherent methods: pointers, rows, `push`, `reserve` and `set_len`.
pub open spec fn soa_impl_tail(n: NamesView, fs: Seq<Field>) -> Seq<char> {
    as_ptr_method(n, fs)
        + get_method(n, fs)
        + get_mut_method(n, fs)
        + push_method(n, fs)
        + soa_impl_rest(n, fs)
}

/// Returns the source text of the second half of the collection's inherent methods: pointers, rows, `push`, `reserve` and `set_len`.
pub fn soa_impl_tail_text(n: &GeneratedNames, fs: &Vec<Field>) -> (res: String)
    requires
        fs.len() >= 1,
    ensures
        res@ == soa_impl_tail(n@, fs@),
{
    let mut s = as_ptr_method_text(n, fs);
    let t = get_method_text(n, fs);
    s.append(t.as_str());
    let t = get_mut_method_text(n, fs);
    s.append(t.as_str());
    let t = push_method_text(n, fs);
    s.append(t.as_str());
    let t = soa_impl_rest_text(n, fs);
    s.append(t.as_str());
    s
}

/// The source text of the collection's `Default` and `From` into the tuple of columns.
pub open spec fn default_from_impls(n: NamesView, fs: Seq<Field>) -> Seq<char> {
    "impl Default for "@
        + n.soa
        + " { fn default() -> Self { Self::new() } } impl From<"@
        + n.soa
        + "> for ("@
        + field_lines(LineKind::VecType, fs)
        + ") { fn from(value: "@
        + n.soa
        + ") -> Self { ("@
        + field_lines(LineKind::FromValue, fs)
        + ") } } "@
}

/// Returns the source text of the collection's `Default` and `From` into the tuple of columns.
pub fn default_from_impls_text(n: &GeneratedNames, fs: &Vec<Field>) -> (res: String)
    requires
        fs.len() >= 1,
    ensures
        res@ == default_from_impls(n@, fs@),
{
    let mut s = String::from_str("impl Default for ");
    s.append(n.soa.as_str());
    s.append(" { fn default() -> Self { Self::new() } } impl From<");
    s.append(n.soa.as_str());
    s.append("> for (");
    let t = field_lines_text(&LineKind::VecType, fs, 0);
    s.append(t.as_str());
    s.append(") { fn from(value: ");
    s.append(n.soa.as_str());
    s.append(") -> Self { (");
    let t = field_lines_text(&LineKind::FromValue, fs, 0);
    s.append(t.as_str());
    s.append(") } } ");
    s
}

/// The source text of the collection's `Extend`, which appends the items of an iterator as rows.
pub open spec fn extend_impl(n: NamesView, fs: Seq<Field>) -> Seq<char> {
    "impl Extend<"@
        + n.name
        + "> for "@
        + n.soa
        + " { fn extend<I: IntoIterator<Item = "@
        + n.name
        + ">>(&mut self, iter: I) { for x in iter { "@
        + field_lines(LineKind::ExtendPush, fs)
        + "} } } "@
}

/// Returns the source text of the collection's `Extend`, which appends the items of an iterator as rows.
pub fn extend_impl_text(n: &GeneratedNames, fs: &Vec<Field>) -> (res: String)
    requires
        fs.len() >= 1,
    ensures
        res@ == extend_impl(n@, fs@),
{
    let mut s = String::from_str("impl Extend<");
    s.append(n.name.as_str());
    s.append("> for ");
    s.append(n.soa.as_str());
    s.append(" { fn extend<I: IntoIterator<Item = ");
    s.append(n.name.as_str());
    s.append(">>(&mut self, iter: I) { for x in iter { ");
    let t = field_lines_text(&LineKind::ExtendPush, fs, 0);
    s.append(t.as_str());
    s.append("} } } ");
    s
}

/// The source text of the collection's `Default`, `From` into the tuple of columns, and `Extend`.
pub open spec fn conversion_items(n: NamesView, fs: Seq<Field>) -> Seq<char> {
    default_from_impls(n, fs)
        + extend_impl(n, fs)
}

/// Returns the source text of the collection's `Default`, `From` into the tuple of columns, and `Extend`.
pub fn conversion_items_text(n: &GeneratedNames, fs: &Vec<Field>) -> (res: String)
    requires
        fs.len() >= 1,
    ensures
        res@ == conversion_items(n@, fs@),
{
    let mut s = default_from_impls_text(n, fs);
    let t = extend_impl_text(n, fs);
    s.append(t.as_str());
    s
}

/// The source text of the declarations of the owned rows and iterator.
pub open spec fn owned_structs(n: NamesView, fs: Seq<Field>) -> Seq<char> {
    "pub struct "@
        + n.iter
        + " { "@
        + field_lines(LineKind::IntoIterField, fs)
        + "} "@
}

/// Returns the source text of the declarations of the owned rows and iterator.
pub fn owned_structs_text(n: &GeneratedNames, fs: &Vec<Field>) -> (res: String)
    requires
        fs.len() >= 1,
    ensures
        res@ == owned_structs(n@, fs@),
{
    let mut s = String::from_str("pub struct ");
    s.append(n.iter.as_str());
    s.append(" { ");
    let t = field_lines_text(&LineKind::IntoIterField, fs, 0);
    s.append(t.as_str());
    s.append("} ");
    s
}

/// The source text of the `Iterator` of the owned iterator, which reads the rows in order.
pub open spec fn owned_next_impl(n: NamesView, fs: Seq<Field>) -> Seq<char> {
    "impl Iterator for "@
        + n.iter
        + " { type Item = "@
        + n.name
        + "; fn next(&mut self) -> Option<Self::Item> { "@
        + access_body(fs, "next()"@, LineKind::NextLet, n.name)
        + " } } "@
}

/// Returns the source text of the `Iterator` of the owned iterator, which reads the rows in order.
pub fn owned_next_impl_text(n: &GeneratedNames, fs: &Vec<Field>) -> (res: String)
    requires
        fs.len() >= 1,
    ensures
        res@ == owned_next_impl(n@, fs@),
{
    let mut s = String::from_str("impl Iterator for ");
    s.append(n.iter.as_str());
    s.append(" { type Item = ");
    s.append(n.name.as_str());
    s.append("; fn next(&mut self) -> Option<Self::Item> { ");
    let t = access_body_text(fs, "next()", &LineKind::NextLet, &n.name);
    s.append(t.as_str());
    s.append(" } } ");
    s
}

/// The source text of the `IntoIterator` that gives the owned iterator.
pub open spec fn owned_into_iter_impl(n: NamesView, fs: Seq<Field>) -> Seq<char> {
    "impl IntoIterator for "@
        + n.soa
        + " { type Item = "@
        + n.name
        + "; type IntoIter = "@
        + n.iter
        + "; fn into_iter(self) -> Self::IntoIter { "@
        + n.iter
        + " { "@
        + field_lines(LineKind::IntoIterValue, fs)
        + "} } } "@
}

/// Returns the source text of the `IntoIterator` that gives the owned iterator.
pub fn owned_into_iter_impl_text(n: &GeneratedNames, fs: &Vec<Field>) -> (res: String)
    requires
        fs.len() >= 1,
    ensures
        res@ == owned_into_iter_impl(n@, fs@),
{
    let mut s = String::from_str("impl IntoIterator for ");
    s.append(n.soa.as_str());
    s.append(" { type Item = ");
    s.append(n.name.as_str());
    s.append("; type IntoIter = ");
    s.append(n.iter.as_str());
    s.append("; fn into_iter(self) -> Self::IntoIter { ");
    s.append(n.iter.as_str());
    s.append(" { ");
    let t = field_lines_text(&LineKind::IntoIterValue, fs, 0);
    s.append(t.as_str());
    s.append("} } } ");
    s
}

/// The source text of the owning iterator `{name}Iter` and the collection's `IntoIterator`.
pub open spec fn owned_iter_items(n: NamesView, fs: Seq<Field>) -> Seq<char> {
    owned_structs(n, fs)
        + owned_next_impl(n, fs)
        + owned_into_iter_impl(n, fs)
}

/// Returns the source text of the owning iterator `{name}Iter` and the collection's `IntoIterator`.
pub fn owned_iter_items_text(n: &GeneratedNames, fs: &Vec<Field>) -> (res: String)
    requires
        fs.len() >= 1,
    ensures
        res@ == owned_iter_items(n@, fs@),
{
    let mut s = owned_structs_text(n, fs);
    let t = owned_next_impl_text(n, fs);
    s.append(t.as_str());
    let t = owned_into_iter_impl_text(n, fs);
    s.append(t.as_str());
    s
}

/// The source text of the declarations of the shared rows and iterator.
pub open spec fn shared_structs(n: NamesView, fs: Seq<Field>) -> Seq<char> {
    "#[derive(Clone, Copy, PartialEq, Eq, Debug)] pub struct "@
        + n.ref_name
        + "<'a> { "@
        + field_lines(LineKind::RefField, fs)
        + "} pub struct "@
        + n.iter_ref
        + "<'a> { "@
        + field_lines(LineKind::IterRefField, fs)
        + "} "@
}

/// Returns the source text of the declarations of the shared rows and iterator.
pub fn shared_structs_text(n: &GeneratedNames, fs: &Vec<Field>) -> (res: String)
    requires
        fs.len() >= 1,
    ensures
        res@ == shared_structs(n@, fs@),
{
    let mut s = String::from_str("#[derive(Clone, Copy, PartialEq, Eq, Debug)] pub struct ");
    s.append(n.ref_name.as_str());
    s.append("<'a> { ");
    let t = field_lines_text(&LineKind::RefField, fs, 0);
    s.append(t.as_str());
    s.append("} pub struct ");
    s.append(n.iter_ref.as_str());
    s.append("<'a> { ");
    let t = field_lines_text(&LineKind::IterRefField, fs, 0);
    s.append(t.as_str());
    s.append("} ");
    s
}

/// The source text of the `Iterator` of the shared iterator, which reads the rows in order.
pub open spec fn shared_next_impl(n: NamesView, fs: Seq<Field>) -> Seq<char> {
    "impl<'a> Iterator for "@
        + n.iter_ref
        + "<'a> { type Item = "@
        + n.ref_name
        + "<'a>; fn next(&mut self) -> Option<Self::Item> { "@
        + access_body(fs, "next()"@, LineKind::NextLet, n.ref_name)
        + " } } "@
}

/// Returns the source text of the `Iterator` of the shared iterator, which reads the rows in order.
pub fn shared_next_impl_text(n: &GeneratedNames, fs: &Vec<Field>) -> (res: String)
    requires
        fs.len() >= 1,
    ensures
        res@ == shared_next_impl(n@, fs@),
{
    let mut s = String::from_str("impl<'a> Iterator for ");
    s.append(n.iter_ref.as_str());
    s.append("<'a> { type Item = ");
    s.append(n.ref_name.as_str());
    s.append("<'a>; fn next(&mut self) -> Option<Self::Item> { ");
    let t = access_body_text(fs, "next()", &LineKind::NextLet, &n.ref_name);
    s.append(t.as_str());
    s.append(" } } ");
    s
}

/// The source text of the `IntoIterator` that gives the shared iterator.
pub open spec fn shared_into_iter_impl(n: NamesView, fs: Seq<Field>) -> Seq<char> {
    "impl<'a> IntoIterator for &'a "@
        + n.soa
        + " { type Item = "@
        + n.ref_name
        + "<'a>; type IntoIter = "@
        + n.iter_ref
        + "<'a>; fn into_iter(self) -> Self::IntoIter { "@
        + n.iter_ref
        + " { "@
        + field_lines(LineKind::IterRefValue, fs)
        + "} } } "@
}

/// Returns the source text of the `IntoIterator` that gives the shared iterator.
pub fn shared_into_iter_impl_text(n: &GeneratedNames, fs: &Vec<Field>) -> (res: String)
    requires
        fs.len() >= 1,
    ensures
        res@ == shared_into_iter_impl(n@, fs@),
{
    let mut s = String::from_str("impl<'a> IntoIterator for &'a ");
    s.append(n.soa.as_str());
    s.append(" { type Item = ");
    s.append(n.ref_name.as_str());
    s.append("<'a>; type IntoIter = ");
    s.append(n.iter_ref.as_str());
    s.append("<'a>; fn into_iter(self) -> Self::IntoIter { ");
    s.append(n.iter_ref.as_str());
    s.append(" { ");
    let t = field_lines_text(&LineKind::IterRefValue, fs, 0);
    s.append(t.as_str());
    s.append("} } } ");
    s
}

/// The source text of the row of shared references `{name}Ref`, its iterator `{name}IterRef`, and `IntoIterator` for a shared collection.
pub open spec fn ref_items(n: NamesView, fs: Seq<Field>) -> Seq<char> {
    shared_structs(n, fs)
        + shared_next_impl(n, fs)
        + shared_into_iter_impl(n, fs)
}

/// Returns the source text of the row of shared references `{name}Ref`, its iterator `{name}IterRef`, and `IntoIterator` for a shared collection.
pub fn ref_items_text(n: &GeneratedNames, fs: &Vec<Field>) -> (res: String)
    requires
        fs.len() >= 1,
    ensures
        res@ == ref_items(n@, fs@),
{
    let mut s = shared_structs_text(n, fs);
    let t = shared_next_impl_text(n, fs);
    s.append(t.as_str());
    let t = shared_into_iter_impl_text(n, fs);
    s.append(t.as_str());
    s
}

/// The source text of the declarations of the mutable rows and iterator.
pub open spec fn mutable_structs(n: NamesView, fs: Seq<Field>) -> Seq<char> {
    "#[derive(PartialEq, Eq, Debug)] pub struct "@
        + n.mut_name
        + "<'a> { "@
        + field_lines(LineKind::MutRefField, fs)
        + "} pub struct "@
        + n.iter_mut
        + "<'a> { "@
        + field_lines(LineKind::IterMutField, fs)
        + "} "@
}

/// Returns the source text of the declarations of the mutable rows and iterator.
pub fn mutable_structs_text(n: &GeneratedNames, fs: &Vec<Field>) -> (res: String)
    requires
        fs.len() >= 1,
    ensures
        res@ == mutable_structs(n@, fs@),
{
    let mut s = String::from_str("#[derive(PartialEq, Eq, Debug)] pub struct ");
    s.append(n.mut_name.as_str());
    s.append("<'a> { ");
    let t = field_lines_text(&LineKind::MutRefField, fs, 0);
    s.append(t.as_str());
    s.append("} pub struct ");
    s.append(n.iter_mut.as_str());
    s.append("<'a> { ");
    let t = field_lines_text(&LineKind::IterMutField, fs, 0);
    s.append(t.as_str());
    s.append("} ");
    s
}

/// The source text of the `Iterator` of the mutable iterator, which reads the rows in order.
pub open spec fn mutable_next_impl(n: NamesView, fs: Seq<Field>) -> Seq<char> {
    "impl<'a> Iterator for "@
        + n.iter_mut
        + "<'a> { type Item = "@
        + n.mut_name
        + "<'a>; fn next(&mut self) -> Option<Self::Item> { "@
        + access_body(fs, "next()"@, LineKind::NextLet, n.mut_name)
        + " } } "@
}

/// Returns the source text of the `Iterator` of the mutable iterator, which reads the rows in order.
pub fn mutable_next_impl_text(n: &GeneratedNames, fs: &Vec<Field>) -> (res: String)
    requires
        fs.len() >= 1,
    ensures
        res@ == mutable_next_impl(n@, fs@),
{
    let mut s = String::from_str("impl<'a> Iterator for ");
    s.append(n.iter_mut.as_str());
    s.append("<'a> { type Item = ");
    s.append(n.mut_name.as_str());
    s.append("<'a>; fn next(&mut self) -> Option<Self::Item> { ");
    let t = access_body_text(fs, "next()", &LineKind::NextLet, &n.mut_name);
    s.append(t.as_str());
    s.append(" } } ");
    s
}

/// The source text of the `IntoIterator` that gives the mutable iterator.
pub open spec fn mutable_into_iter_impl(n: NamesView, fs: Seq<Field>) -> Seq<char> {
    "impl<'a> IntoIterator for &'a mut "@
        + n.soa
        + " { type Item = "@
        + n.mut_name
        + "<'a>; type IntoIter = "@
        + n.iter_mut
        + "<'a>; fn into_iter(self) -> Self::IntoIter { "@
        + n.iter_mut
        + " { "@
        + field_lines(LineKind::IterMutValue, fs)
        + "} } } "@
}

/// Returns the source text of the `IntoIterator` that gives the mutable iterator.
pub fn mutable_into_iter_impl_text(n: &GeneratedNames, fs: &Vec<Field>) -> (res: String)
    requires
        fs.len() >= 1,
    ensures
        res@ == mutable_into_iter_impl(n@, fs@),
{
    let mut s = String::from_str("impl<'a> IntoIterator for &'a mut ");
    s.append(n.soa.as_str());
    s.append(" { type Item = ");
    s.append(n.mut_name.as_str());
    s.append("<'a>; type IntoIter = ");
    s.append(n.iter_mut.as_str());
    s.append("<'a>; fn into_iter(self) -> Self::IntoIter { ");
    s.append(n.iter_mut.as_str());
    s.append(" { ");
    let t = field_lines_text(&LineKind::IterMutValue, fs, 0);
    s.append(t.as_str());
    s.append("} } } ");
    s
}

/// The source text of the row of mutable references `{name}Mut`, its iterator `{name}IterMut`, and `IntoIterator` for a mutable collection.
pub open spec fn mut_items(n: NamesView, fs: Seq<Field>) -> Seq<char> {
    mutable_structs(n, fs)
        + mutable_next_impl(n, fs)
        + mutable_into_iter_impl(n, fs)
}

/// Returns the source text of the row of mutable references `{name}Mut`, its iterator `{name}IterMut`, and `IntoIterator` for a mutable collection.
pub fn mut_items_text(n: &GeneratedNames, fs: &Vec<Field>) -> (res: String)
    requires
        fs.len() >= 1,
    ensures
        res@ == mut_items(n@, fs@),
{
    let mut s = mutable_structs_text(n, fs);
    let t = mutable_next_impl_text(n, fs);
    s.append(t.as_str());
    let t = mutable_into_iter_impl_text(n, fs);
    s.append(t.as_str());
    s
}

/// The source text of the parallel-extend implementation up to its ordered merge.
pub open spec fn par_extend_head(n: NamesView) -> Seq<char> {
    "use ::orx_priority_queue::PriorityQueue as _; impl ::orx_parallel::collectables::ParExtendCore<"@
        + n.name
        + "> for "@
        + n.soa
        + " { type ThreadValues = Self; type OrderedThreadValues = ::orx_parallel::collectables::ColAndPos<Self>; "@
        + "fn new_thread_values() -> Self::ThreadValues { Default::default() } "@
        + "fn new_ordered_thread_values() -> Self::OrderedThreadValues { Default::default() } "@
        + "fn add_thread_value(collected: &mut Self::ThreadValues, value: "@
        + n.name
        + ") { collected.push(value); } "@
        + "fn add_thread_values(collected: &mut Self::ThreadValues, values: impl IntoIterator<Item = "@
        + n.name
        + ">) { collected.extend(values); } "@
        + "fn add_ordered_thread_value(collected: &mut Self::OrderedThreadValues, idx: usize, value: "@
        + n.name
        + ") { collected.values.push(value); collected.positions.push(::orx_parallel::collectables::IdxLen { idx, len: 1 }); } "@
        + "fn add_ordered_thread_values(collected: &mut Self::OrderedThreadValues, idx: usize, values: impl IntoIterator<Item = "@
        + n.name
        + ">) { let len_begin = collected.values.len(); collected.values.extend(values); let len = collected.values.len() - len_begin; "@
        + "if len > 0 { collected.positions.push(::orx_parallel::collectables::IdxLen { idx, len }); } } "@
        + "fn add_ordered_thread_optionals(collected: &mut Self::OrderedThreadValues, idx: usize, values: impl IntoIterator<Item = Option<"@
        + n.name
        + ">>) -> Option<()> { let len_begin = collected.values.len(); for value in values { collected.values.push(value?); } "@
        + "let len = collected.values.len() - len_begin; if len > 0 { collected.positions.push(::orx_parallel::collectables::IdxLen { idx, len }); } Some(()) } "@
        + "fn add_ordered_thread_fallibles<E>(collected: &mut Self::OrderedThreadValues, idx: usize, values: impl IntoIterator<Item = Result<"@
        + n.name
        + ", E>>) -> Result<(), E> { let len_begin = collected.values.len(); for value in values { collected.values.push(value?); } "@
        + "let len = collected.values.len() - len_begin; if len > 0 { collected.positions.push(::orx_parallel::collectables::IdxLen { idx, len }); } Ok(()) } "@
        + "fn add_one(&mut self, value: "@
        + n.name
        + ") { self.push(value); } "@
        + "fn extend_merge_infallibles(&mut self, results: Vec<Self::ThreadValues>) { let collected_len: usize = results.iter().map(|x| x.len()).sum(); "@
        + "self.reserve(collected_len); for result in results { self.extend(result); } } "@
}

/// Returns the source text of the parallel-extend implementation up to its ordered merge.
pub fn par_extend_head_text(n: &GeneratedNames) -> (res: String)
    ensures
        res@ == par_extend_head(n@),
{
    let mut s = String::from_str("use ::orx_priority_queue::PriorityQueue as _; impl ::orx_parallel::collectables::ParExtendCore<");
    s.append(n.name.as_str());
    s.append("> for ");
    s.append(n.soa.as_str());
    s.append(" { type ThreadValues = Self; type OrderedThreadValues = ::orx_parallel::collectables::ColAndPos<Self>; ");
    s.append("fn new_thread_values() -> Self::ThreadValues { Default::default() } ");
    s.append("fn new_ordered_thread_values() -> Self::OrderedThreadValues { Default::default() } ");
    s.append("fn add_thread_value(collected: &mut Self::ThreadValues, value: ");
    s.append(n.name.as_str());
    s.append(") { collected.push(value); } ");
    s.append("fn add_thread_values(collected: &mut Self::ThreadValues, values: impl IntoIterator<Item = ");
    s.append(n.name.as_str());
    s.append(">) { collected.extend(values); } ");
    s.append("fn add_ordered_thread_value(collected: &mut Self::OrderedThreadValues, idx: usize, value: ");
    s.append(n.name.as_str());
    s.append(") { collected.values.push(value); collected.positions.push(::orx_parallel::collectables::IdxLen { idx, len: 1 }); } ");
    s.append("fn add_ordered_thread_values(collected: &mut Self::OrderedThreadValues, idx: usize, values: impl IntoIterator<Item = ");
    s.append(n.name.as_str());
    s.append(">) { let len_begin = collected.values.len(); collected.values.extend(values); let len = collected.values.len() - len_begin; ");
    s.append("if len > 0 { collected.positions.push(::orx_parallel::collectables::IdxLen { idx, len }); } } ");
    s.append("fn add_ordered_thread_optionals(collected: &mut Self::OrderedThreadValues, idx: usize, values: impl IntoIterator<Item = Option<");
    s.append(n.name.as_str());
    s.append(">>) -> Option<()> { let len_begin = collected.values.len(); for value in values { collected.values.push(value?); } ");
    s.append("let len = collected.values.len() - len_begin; if len > 0 { collected.positions.push(::orx_parallel::collectables::IdxLen { idx, len }); } Some(()) } ");
    s.append("fn add_ordered_thread_fallibles<E>(collected: &mut Self::OrderedThreadValues, idx: usize, values: impl IntoIterator<Item = Result<");
    s.append(n.name.as_str());
    s.append(", E>>) -> Result<(), E> { let len_begin = collected.values.len(); for value in values { collected.values.push(value?); } ");
    s.append("let len = collected.values.len() - len_begin; if len > 0 { collected.positions.push(::orx_parallel::collectables::IdxLen { idx, len }); } Ok(()) } ");
    s.append("fn add_one(&mut self, value: ");
    s.append(n.name.as_str());
    s.append(") { self.push(value); } ");
    s.append("fn extend_merge_infallibles(&mut self, results: Vec<Self::ThreadValues>) { let collected_len: usize = results.iter().map(|x| x.len()).sum(); ");
    s.append("self.reserve(collected_len); for result in results { self.extend(result); } } ");
    s
}

/// The source text of the start of the ordered merge: sizes, the heap of thread chunks and its first entries.
pub open spec fn merge_setup() -> Seq<char> {
    "fn extend_merge_ordered_infallibles(&mut self, mut results: Vec<Self::OrderedThreadValues>) { let collected_len: usize = results.iter().map(|x| x.values.len()).sum(); "@
        + "self.reserve(collected_len); let initial_len = self.len(); let total_len = initial_len + collected_len; "@
        + "let mut queue = ::orx_priority_queue::BinaryHeap::with_capacity(results.len()); let mut pos_indices = ::std::vec![0; "@
        + "results.len()]; for (t, vec) in results.iter().enumerate() { if let Some(pos) = vec.positions.first() { let node = ::orx_parallel::collectables::ThBegLen::new(t, 0, pos.len); "@
        + ""@
}

/// Returns the source text of the start of the ordered merge: sizes, the heap of thread chunks and its first entries.
pub fn merge_setup_text() -> (res: String)
    ensures
        res@ == merge_setup(),
{
    let mut s = String::from_str("fn extend_merge_ordered_infallibles(&mut self, mut results: Vec<Self::OrderedThreadValues>) { let collected_len: usize = results.iter().map(|x| x.values.len()).sum(); ");
    s.append("self.reserve(collected_len); let initial_len = self.len(); let total_len = initial_len + collected_len; ");
    s.append("let mut queue = ::orx_priority_queue::BinaryHeap::with_capacity(results.len()); let mut pos_indices = ::std::vec![0; ");
    s.append("results.len()]; for (t, vec) in results.iter().enumerate() { if let Some(pos) = vec.positions.first() { let node = ::orx_parallel::collectables::ThBegLen::new(t, 0, pos.len); ");
    s.append("");
    s
}

/// The source text of the loop of the ordered merge that copies one chunk and moves on to the next.
pub open spec fn merge_loop() -> Seq<char> {
    "} } let mut curr_t = queue.pop_node(); let mut ptr_dst = unsafe { self.as_mut_ptr().add(initial_len) }; "@
        + "while let Some(::orx_parallel::collectables::ThBegLen { th, beg, len }) = curr_t { let ptr_src = unsafe { results[th].values.as_ptr().add(beg) }; "@
        + "unsafe { ptr_dst.copy_from_nonoverlapping(ptr_src, len) }; pos_indices[th] += 1; "@
        + "curr_t = match results[th].positions.get(pos_indices[th]) { Some(pos) => { let beg = beg + len; "@
        + "let node = ::orx_parallel::collectables::ThBegLen::new(th, beg, pos.len); "@
}

/// Returns the source text of the loop of the ordered merge that copies one chunk and moves on to the next.
pub fn merge_loop_text() -> (res: String)
    ensures
        res@ == merge_loop(),
{
    let mut s = String::from_str("} } let mut curr_t = queue.pop_node(); let mut ptr_dst = unsafe { self.as_mut_ptr().add(initial_len) }; ");
    s.append("while let Some(::orx_parallel::collectables::ThBegLen { th, beg, len }) = curr_t { let ptr_src = unsafe { results[th].values.as_ptr().add(beg) }; ");
    s.append("unsafe { ptr_dst.copy_from_nonoverlapping(ptr_src, len) }; pos_indices[th] += 1; ");
    s.append("curr_t = match results[th].positions.get(pos_indices[th]) { Some(pos) => { let beg = beg + len; ");
    s.append("let node = ::orx_parallel::collectables::ThBegLen::new(th, beg, pos.len); ");
    s
}

/// The source text of the end of the ordered merge.
pub open spec fn merge_end() -> Seq<char> {
    "} None => queue.pop_node(), }; ptr_dst = unsafe { ptr_dst.add(len) }; } for vec in results.iter_mut() { unsafe { vec.values.set_len(0) }; "@
        + "} unsafe { self.set_len(total_len) }; } "@
}

/// Returns the source text of the end of the ordered merge.
pub fn merge_end_text() -> (res: String)
    ensures
        res@ == merge_end(),
{
    let mut s = String::from_str("} None => queue.pop_node(), }; ptr_dst = unsafe { ptr_dst.add(len) }; } for vec in results.iter_mut() { unsafe { vec.values.set_len(0) }; ");
    s.append("} unsafe { self.set_len(total_len) }; } ");
    s
}

/// The source text of the ordered merge of per-thread results: every chunk enters the heap keyed by its position.
pub open spec fn ordered_merge() -> Seq<char> {
    merge_setup()
        + "queue.push(node, pos.idx); "@
        + merge_loop()
        + "Some(queue.push_then_pop(node, pos.idx).0) "@
        + merge_end()
}

/// Returns the source text of the ordered merge of per-thread results: every chunk enters the heap keyed by its position.
pub fn ordered_merge_text() -> (res: String)
    ensures
        res@ == ordered_merge(),
{
    let mut s = merge_setup_text();
    s.append("queue.push(node, pos.idx); ");
    let t = merge_loop_text();
    s.append(t.as_str());
    s.append("Some(queue.push_then_pop(node, pos.idx).0) ");
    let t = merge_end_text();
    s.append(t.as_str());
    s
}

/// The source text of the parallel-extend implementation for the collection.
pub open spec fn par_extend_items(n: NamesView) -> Seq<char> {
    par_extend_head(n)
        + ordered_merge()
        + "} "@
}

/// Returns the source text of the parallel-extend implementation for the collection.
pub fn par_extend_items_text(n: &GeneratedNames) -> (res: String)
    ensures
        res@ == par_extend_items(n@),
{
    let mut s = par_extend_head_text(n);
    let t = ordered_merge_text();
    s.append(t.as_str());
    s.append("} ");
    s
}
/// The items generated for every struct, in order: pointers, the collection
/// and its methods and conversions, and the three iterators with their rows.
pub open spec fn core_items(n: NamesView, fs: Seq<Field>) -> Seq<char> {
    ptr_items(n, fs) + mut_ptr_items(n, fs) + soa_struct(n, fs) + soa_impl_head(n, fs)
        + soa_impl_tail(n, fs) + conversion_items(n, fs) + owned_iter_items(n, fs) + ref_items(n, fs)
        + mut_items(n, fs)
}

/// The whole source text generated for a struct whose generated identifiers
/// are `n` and whose fields are `fs`: the core items, followed by the
/// parallel-extend implementation exactly when every field may be sent across
/// threads.
pub open spec fn expansion(n: NamesView, fs: Seq<Field>) -> Seq<char> {
    if all_send(fs) {
        core_items(n, fs) + par_extend_items(n)
    } else {
        core_items(n, fs)
    }
}

/// Returns the whole source text generated for a struct; see `expansion`.
pub fn expansion_text(n: &GeneratedNames, fs: &Vec<Field>) -> (res: String)
    requires
        fs.len() >= 1,
    ensures
        res@ == expansion(n@, fs@),
{
    let mut s = ptr_items_text(n, fs);
    let t = mut_ptr_items_text(n, fs);
    s.append(t.as_str());
    let t = soa_struct_text(n, fs);
    s.append(t.as_str());
    let t = soa_impl_head_text(n, fs);
    s.append(t.as_str());
    let t = soa_impl_tail_text(n, fs);
    s.append(t.as_str());
    let t = conversion_items_text(n, fs);
    s.append(t.as_str());
    let t = owned_iter_items_text(n, fs);
    s.append(t.as_str());
    let t = ref_items_text(n, fs);
    s.append(t.as_str());
    let t = mut_items_text(n, fs);
    s.append(t.as_str());
    if fields_are_send(fs) {
        let t = par_extend_items_text(n);
        s.append(t.as_str());
    }
    s
}

/// Why a derive input has no struct-of-arrays companion.
#[derive(Clone, Copy, Debug, PartialEq, Eq, Structural)]
pub enum SoaError {
    /// The input is an enum or a union.
    NotAStruct,
    /// The input is a tuple struct or a unit struct.
    NotNamedFields,
    /// The input is a struct with named fields, but without any field.
    NoFields,
}

impl SoaError {
    /// The message with which the derive fails for this error.
    pub open spec fn spec_message(self) -> Seq<char> {
        match self {
            SoaError::NotAStruct => "Soa only supports structs"@,
            SoaError::NotNamedFields => "Soa only supports structs with named fields"@,
            SoaError::NoFields => "index out of bounds: the len is 0 but the index is 0"@,
        }
    }

    /// Returns the message with which the derive fails for this error.
    pub fn message(&self) -> (res: &'static str)
        ensures
            res@ == self.spec_message(),
    {
        match self {
            SoaError::NotAStruct => "Soa only supports structs",
            SoaError::NotNamedFields => "Soa only supports structs with named fields",
            SoaError::NoFields => "index out of bounds: the len is 0 but the index is 0",
        }
    }
}

/// What the derive produces for `input`: the source text of the
/// struct-of-arrays companion of a struct with at least one named field, or
/// the reason there is none.
pub open spec fn spec_derive_soa(input: DeriveInput) -> Result<Seq<char>, SoaError> {
    match input.data {
        Data::Struct(Fields::Named(fs)) => if fs@.len() == 0 {
            Err(SoaError::NoFields)
        } else {
            Ok(expansion(names_for(input.ident@), fs@))
        },
        Data::Struct(_) => Err(SoaError::NotNamedFields),
        _ => Err(SoaError::NotAStruct),
    }
}

/// The view of a derive result: the source text as a sequence of characters.
pub open spec fn result_view(res: Result<String, SoaError>) -> Result<Seq<char>, SoaError> {
    match res {
        Ok(s) => Ok(s@),
        Err(e) => Err(e),
    }
}

/// Derives the struct-of-arrays companion of `input`: returns its source
/// text, or the reason there is none.
pub fn derive_soa(input: &DeriveInput) -> (res: Result<String, SoaError>)
    ensures
        result_view(res) == spec_derive_soa(*input),
{
    match &input.data {
        Data::Struct(Fields::Named(fs)) => {
            if fs.len() == 0 {
                Err(SoaError::NoFields)
            } else {
                let names = generated_names(&input.ident);
                Ok(expansion_text(&names, fs))
            }
        },
        Data::Struct(_) => Err(SoaError::NotNamedFields),
        _ => Err(SoaError::NotAStruct),
    }
}

} // verus!
