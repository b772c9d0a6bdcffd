//! One line of generated source per field, for each kind of line.
use vstd::prelude::*;
use crate::input::Field;
use crate::names::{fragment_of, ident_fragment};

verus! {

/// The kinds of per-field lines that the generated source is made of.
pub enum LineKind {
    /// A public `*const` column pointer.
    PtrField,
    /// A public `*mut` column pointer.
    MutPtrField,
    /// A field copied from `self`.
    CopyField,
    /// A column pointer advanced by `count`.
    PtrAdd,
    /// A column copied from `src`.
    PtrCopy,
    /// A `Vec` column declaration.
    VecField,
    /// An empty column.
    VecNew,
    /// An empty column with room for `capacity` items.
    VecWithCapacity,
    /// The type of a column, in a tuple type.
    VecType,
    /// A column moved out of `self`, in a tuple.
    IntoInner,
    /// A method that lends a column as a slice.
    Accessor,
    /// A method that lends a column as a mutable slice.
    MutAccessor,
    /// A column pointer taken from `self`.
    AsPtr,
    /// A mutable column pointer taken from `self`.
    AsMutPtr,
    /// A binding of a shared reference into a column at `index`.
    GetLet,
    /// A binding of a mutable reference into a column at `index`.
    GetMutLet,
    /// A push of `item`'s field onto its column.
    Push,
    /// A reservation of `additional` slots in a column.
    Reserve,
    /// A change of a column's length to `new_len`.
    SetLen,
    /// A column moved out of `value`, in a tuple.
    FromValue,
    /// A push of `x`'s field onto its column.
    ExtendPush,
    /// An owning column iterator declaration.
    IntoIterField,
    /// A shared column iterator declaration.
    IterRefField,
    /// A mutable column iterator declaration.
    IterMutField,
    /// An owning iterator taken from a column.
    IntoIterValue,
    /// A shared iterator taken from a column.
    IterRefValue,
    /// A mutable iterator taken from a column.
    IterMutValue,
    /// A binding of the next item of a column iterator.
    NextLet,
    /// A shared reference field declaration.
    RefField,
    /// A mutable reference field declaration.
    MutRefField,
}

/// The line of kind `kind` for the field `f`.
pub open spec fn field_line(kind: LineKind, f: Field) -> Seq<char> {
    match kind {
        LineKind::PtrField => "pub "@ + f.ident@ + ": *const "@ + f.ty@ + ", "@,
        LineKind::MutPtrField => "pub "@ + f.ident@ + ": *mut "@ + f.ty@ + ", "@,
        LineKind::CopyField => f.ident@ + ": self."@ + f.ident@ + ", "@,
        LineKind::PtrAdd => f.ident@ + ": unsafe { self."@ + f.ident@ + ".add(count) }, "@,
        LineKind::PtrCopy => "unsafe { self."@ + f.ident@ + ".copy_from_nonoverlapping(src."@ + f.ident@ + ", count) }; "@,
        LineKind::VecField => f.ident@ + ": Vec<"@ + f.ty@ + ">, "@,
        LineKind::VecNew => f.ident@ + ": Vec::new(), "@,
        LineKind::VecWithCapacity => f.ident@ + ": Vec::with_capacity(capacity), "@,
        LineKind::VecType => "Vec<"@ + f.ty@ + ">, "@,
        LineKind::IntoInner => "self"@ + "."@ + f.ident@ + ", "@,
        LineKind::Accessor => "pub fn "@ + f.ident@ + "(&self) -> &["@ + f.ty@ + "] { &self."@ + f.ident@ + " } "@,
        LineKind::MutAccessor => "pub fn "@ + fragment_of(f.ident@) + "_mut(&mut self) -> &mut ["@ + f.ty@ + "] { &mut self."@ + f.ident@ + " } "@,
        LineKind::AsPtr => f.ident@ + ": self."@ + f.ident@ + "."@ + "as_ptr"@ + "(), "@,
        LineKind::AsMutPtr => f.ident@ + ": self."@ + f.ident@ + "."@ + "as_mut_ptr"@ + "(), "@,
        LineKind::GetLet => "let "@ + f.ident@ + " = "@ + "&"@ + "self."@ + f.ident@ + "[index]; "@,
        LineKind::GetMutLet => "let "@ + f.ident@ + " = "@ + "&mut "@ + "self."@ + f.ident@ + "[index]; "@,
        LineKind::Push => "self."@ + f.ident@ + ".push("@ + "item"@ + "."@ + f.ident@ + "); "@,
        LineKind::Reserve => "self."@ + f.ident@ + ".reserve(additional); "@,
        LineKind::SetLen => "unsafe { self."@ + f.ident@ + ".set_len(new_len) }; "@,
        LineKind::FromValue => "value"@ + "."@ + f.ident@ + ", "@,
        LineKind::ExtendPush => "self."@ + f.ident@ + ".push("@ + "x"@ + "."@ + f.ident@ + "); "@,
        LineKind::IntoIterField => f.ident@ + ": ::std::vec::IntoIter<"@ + f.ty@ + ">, "@,
        LineKind::IterRefField => f.ident@ + ": ::core::slice::Iter<'a, "@ + f.ty@ + ">, "@,
        LineKind::IterMutField => f.ident@ + ": ::core::slice::IterMut<'a, "@ + f.ty@ + ">, "@,
        LineKind::IntoIterValue => f.ident@ + ": self."@ + f.ident@ + "."@ + "into_iter"@ + "(), "@,
        LineKind::IterRefValue => f.ident@ + ": self."@ + f.ident@ + "."@ + "iter"@ + "(), "@,
        LineKind::IterMutValue => f.ident@ + ": self."@ + f.ident@ + "."@ + "iter_mut"@ + "(), "@,
        LineKind::NextLet => "let "@ + f.ident@ + " = unsafe { self."@ + f.ident@ + "."@ + "next()"@ + ".unwrap_unchecked() }; "@,
        LineKind::RefField => f.ident@ + ": &'a "@ + f.ty@ + ", "@,
        LineKind::MutRefField => f.ident@ + ": &'a mut "@ + f.ty@ + ", "@,
    }
}

/// The lines of kind `kind` for the fields `fs`, one per field, in order.
pub open spec fn field_lines(kind: LineKind, fs: Seq<Field>) -> Seq<char>
    decreases fs.len(),
{
    if fs.len() == 0 {
        Seq::empty()
    } else {
        field_lines(kind, fs.drop_last()) + field_line(kind, fs.last())
    }
}

/// Returns the line of kind `kind` for the field `f`.
pub fn field_line_text(kind: &LineKind, f: &Field) -> (res: String)
    ensures
        res@ == field_line(*kind, *f),
{
    match kind {
        LineKind::PtrField => {
            let mut s = String::from_str("pub ");
            s.append(f.ident.as_str());
            s.append(": *const ");
            s.append(f.ty.as_str());
            s.append(", ");
            s
        },
        LineKind::MutPtrField => {
            let mut s = String::from_str("pub ");
            s.append(f.ident.as_str());
            s.append(": *mut ");
            s.append(f.ty.as_str());
            s.append(", ");
            s
        },
        LineKind::CopyField => {
            let mut s = String::from_str(f.ident.as_str());
            s.append(": self.");
            s.append(f.ident.as_str());
            s.append(", ");
            s
        },
        LineKind::PtrAdd => {
            let mut s = String::from_str(f.ident.as_str());
            s.append(": unsafe { self.");
            s.append(f.ident.as_str());
            s.append(".add(count) }, ");
            s
        },
        LineKind::PtrCopy => {
            let mut s = String::from_str("unsafe { self.");
            s.append(f.ident.as_str());
            s.append(".copy_from_nonoverlapping(src.");
            s.append(f.ident.as_str());
            s.append(", count) }; ");
            s
        },
        LineKind::VecField => {
            let mut s = String::from_str(f.ident.as_str());
            s.append(": Vec<");
            s.append(f.ty.as_str());
            s.append(">, ");
            s
        },
        LineKind::VecNew => {
            let mut s = String::from_str(f.ident.as_str());
            s.append(": Vec::new(), ");
            s
        },
        LineKind::VecWithCapacity => {
            let mut s = String::from_str(f.ident.as_str());
            s.append(": Vec::with_capacity(capacity), ");
            s
        },
        LineKind::VecType => {
            let mut s = String::from_str("Vec<");
            s.append(f.ty.as_str());
            s.append(">, ");
            s
        },
        LineKind::IntoInner => {
            let mut s = String::from_str("self");
            s.append(".");
            s.append(f.ident.as_str());
            s.append(", ");
            s
        },
        LineKind::Accessor => {
            let mut s = String::from_str("pub fn ");
            s.append(f.ident.as_str());
            s.append("(&self) -> &[");
            s.append(f.ty.as_str());
            s.append("] { &self.");
            s.append(f.ident.as_str());
            s.append(" } ");
            s
        },
        LineKind::MutAccessor => {
            let mut s = String::from_str("pub fn ");
            let frag = ident_fragment(f.ident.as_str());
            s.append(frag.as_str());
            s.append("_mut(&mut self) -> &mut [");
            s.append(f.ty.as_str());
            s.append("] { &mut self.");
            s.append(f.ident.as_str());
            s.append(" } ");
            s
        },
        LineKind::AsPtr => {
            let mut s = String::from_str(f.ident.as_str());
            s.append(": self.");
            s.append(f.ident.as_str());
            s.append(".");
            s.append("as_ptr");
            s.append("(), ");
            s
        },
        LineKind::AsMutPtr => {
            let mut s = String::from_str(f.ident.as_str());
            s.append(": self.");
            s.append(f.ident.as_str());
            s.append(".");
            s.append("as_mut_ptr");
            s.append("(), ");
            s
        },
        LineKind::GetLet => {
            let mut s = String::from_str("let ");
            s.append(f.ident.as_str());
            s.append(" = ");
            s.append("&");
            s.append("self.");
            s.append(f.ident.as_str());
            s.append("[index]; ");
            s
        },
        LineKind::GetMutLet => {
            let mut s = String::from_str("let ");
            s.append(f.ident.as_str());
            s.append(" = ");
            s.append("&mut ");
            s.append("self.");
            s.append(f.ident.as_str());
            s.append("[index]; ");
            s
        },
        LineKind::Push => {
            let mut s = String::from_str("self.");
            s.append(f.ident.as_str());
            s.append(".push(");
            s.append("item");
            s.append(".");
            s.append(f.ident.as_str());
            s.append("); ");
            s
        },
        LineKind::Reserve => {
            let mut s = String::from_str("self.");
            s.append(f.ident.as_str());
            s.append(".reserve(additional); ");
            s
        },
        LineKind::SetLen => {
            let mut s = String::from_str("unsafe { self.");
            s.append(f.ident.as_str());
            s.append(".set_len(new_len) }; ");
            s
        },
        LineKind::FromValue => {
            let mut s = String::from_str("value");
            s.append(".");
            s.append(f.ident.as_str());
            s.append(", ");
            s
        },
        LineKind::ExtendPush => {
            let mut s = String::from_str("self.");
            s.append(f.ident.as_str());
            s.append(".push(");
            s.append("x");
            s.append(".");
            s.append(f.ident.as_str());
            s.append("); ");
            s
        },
        LineKind::IntoIterField => {
            let mut s = String::from_str(f.ident.as_str());
            s.append(": ::std::vec::IntoIter<");
            s.append(f.ty.as_str());
            s.append(">, ");
            s
        },
        LineKind::IterRefField => {
            let mut s = String::from_str(f.ident.as_str());
            s.append(": ::core::slice::Iter<'a, ");
            s.append(f.ty.as_str());
            s.append(">, ");
            s
        },
        LineKind::IterMutField => {
            let mut s = String::from_str(f.ident.as_str());
            s.append(": ::core::slice::IterMut<'a, ");
            s.append(f.ty.as_str());
            s.append(">, ");
            s
        },
        LineKind::IntoIterValue => {
            let mut s = String::from_str(f.ident.as_str());
            s.append(": self.");
            s.append(f.ident.as_str());
            s.append(".");
            s.append("into_iter");
            s.append("(), ");
            s
        },
        LineKind::IterRefValue => {
            let mut s = String::from_str(f.ident.as_str());
            s.append(": self.");
            s.append(f.ident.as_str());
            s.append(".");
            s.append("iter");
            s.append("(), ");
            s
        },
        LineKind::IterMutValue => {
            let mut s = String::from_str(f.ident.as_str());
            s.append(": self.");
            s.append(f.ident.as_str());
            s.append(".");
            s.append("iter_mut");
            s.append("(), ");
            s
        },
        LineKind::NextLet => {
            let mut s = String::from_str("let ");
            s.append(f.ident.as_str());
            s.append(" = unsafe { self.");
            s.append(f.ident.as_str());
            s.append(".");
            s.append("next()");
            s.append(".unwrap_unchecked() }; ");
            s
        },
        LineKind::RefField => {
            let mut s = String::from_str(f.ident.as_str());
            s.append(": &'a ");
            s.append(f.ty.as_str());
            s.append(", ");
            s
        },
        LineKind::MutRefField => {
            let mut s = String::from_str(f.ident.as_str());
            s.append(": &'a mut ");
            s.append(f.ty.as_str());
            s.append(", ");
            s
        },
    }
}

/// Returns the lines of kind `kind` for the fields of `fs` from index `from`
/// on, one per field, in order.
pub fn field_lines_text(kind: &LineKind, fs: &Vec<Field>, from: usize) -> (res: String)
    requires
        from <= fs.len(),
    ensures
        res@ == field_lines(*kind, fs@.skip(from as int)),
        from == 0 ==> res@ == field_lines(*kind, fs@),
{
    let mut res = String::new();
    let mut i: usize = from;
    assert(fs@.subrange(from as int, from as int) =~= Seq::<Field>::empty());
    while i < fs.len()
        invariant
            from <= i <= fs.len(),
            res@ == field_lines(*kind, fs@.subrange(from as int, i as int)),
        decreases fs.len() - i,
    {
        let line = field_line_text(kind, &fs[i]);
        res.append(line.as_str());
        assert(fs@.subrange(from as int, i + 1).drop_last() =~= fs@.subrange(from as int, i as int));
        i = i + 1;
    }
    assert(fs@.subrange(from as int, fs.len() as int) =~= fs@.skip(from as int));
    assert(fs@.skip(0) =~= fs@);
    res
}

/// The identifiers of the fields `fs`, separated by commas.
pub open spec fn field_list(fs: Seq<Field>) -> Seq<char>
    decreases fs.len(),
{
    if fs.len() == 0 {
        Seq::empty()
    } else if fs.len() == 1 {
        fs[0].ident@
    } else {
        field_list(fs.drop_last()) + ", "@ + fs.last().ident@
    }
}

/// Returns the identifiers of the fields `fs`, separated by commas.
pub fn field_list_text(fs: &Vec<Field>) -> (res: String)
    ensures
        res@ == field_list(fs@),
{
    let mut res = String::new();
    let mut i: usize = 0;
    assert(fs@.take(0) =~= Seq::<Field>::empty());
    while i < fs.len()
        invariant
            i <= fs.len(),
            res@ == field_list(fs@.take(i as int)),
        decreases fs.len() - i,
    {
        if i > 0 {
            res.append(", ");
        }
        res.append(fs[i].ident.as_str());
        assert(fs@.take(i + 1).drop_last() =~= fs@.take(i as int));
        proof {
            if i == 0 {
                assert(res@ =~= fs@.take(1)[0].ident@);
            }
        }
        i = i + 1;
    }
    assert(fs@.take(fs.len() as int) =~= fs@);
    res
}

} // verus!
