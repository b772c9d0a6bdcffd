//! Which field types keep the collection from being filled in parallel.
use vstd::prelude::*;
use crate::input::{Field, TypeKind};

verus! {

/// The last path segments that name a type which is not `Send`.
pub open spec fn is_non_send_name(name: Seq<char>) -> bool {
    ||| name == "Rc"@
    ||| name == "Cell"@
    ||| name == "RefCell"@
    ||| name == "UnsafeCell"@
    ||| name == "Mutex"@
    ||| name == "RwLock"@
}

/// A type counts as not `Send` when it is a raw pointer or a path whose last
/// segment is one of the names above.
pub open spec fn spec_is_non_send(ty: TypeKind) -> bool {
    match ty {
        TypeKind::Ptr => true,
        TypeKind::Path(Some(last)) => is_non_send_name(last@),
        _ => false,
    }
}

/// Every field's type may be sent across threads.
pub open spec fn all_send(fields: Seq<Field>) -> bool {
    forall|i: int| 0 <= i < fields.len() ==> !spec_is_non_send(#[trigger] fields[i].kind)
}

fn name_is(name: &String, lit: &str) -> (res: bool)
    ensures
        res == (name@ == lit@),
{
    let other = String::from_str(lit);
    *name == other
}

/// Returns whether `ty` is a raw pointer or one of the wrappers that are not `Send`.
pub fn is_non_send_type(ty: &TypeKind) -> (res: bool)
    ensures
        res == spec_is_non_send(*ty),
{
    match ty {
        TypeKind::Ptr => true,
        TypeKind::Path(Some(last)) => {
            name_is(last, "Rc") || name_is(last, "Cell") || name_is(last, "RefCell")
                || name_is(last, "UnsafeCell") || name_is(last, "Mutex") || name_is(last, "RwLock")
        },
        _ => false,
    }
}

/// Returns whether no field's type is one that is not `Send`.
pub fn fields_are_send(fields: &Vec<Field>) -> (res: bool)
    ensures
        res == all_send(fields@),
{
    let mut i: usize = 0;
    while i < fields.len()
        invariant
            i <= fields.len(),
            forall|j: int| 0 <= j < i ==> !spec_is_non_send(#[trigger] fields@[j].kind),
        decreases fields.len() - i,
    {
        if is_non_send_type(&fields[i].kind) {
            return false;
        }
        i = i + 1;
    }
    true
}

} // verus!
