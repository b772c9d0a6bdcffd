//! Identifiers that the generator forms from the input's identifiers.
use vstd::prelude::*;

verus! {

/// The text an identifier contributes to a formatted identifier: its name
/// without the `r#` marker of a raw identifier.
pub open spec fn fragment_of(name: Seq<char>) -> Seq<char> {
    if name.len() >= 2 && name[0] == 'r' && name[1] == '#' {
        name.skip(2)
    } else {
        name
    }
}

/// The identifier formed from `name` followed by `suffix`.
pub open spec fn suffixed(name: Seq<char>, suffix: Seq<char>) -> Seq<char> {
    fragment_of(name) + suffix
}

/// Returns the fragment of `name`: `name` without a leading `r#`.
pub fn ident_fragment(name: &str) -> (res: String)
    ensures
        res@ == fragment_of(name@),
{
    let n: usize = name.unicode_len();
    if n >= 2 && name.get_char(0) == 'r' && name.get_char(1) == '#' {
        String::from_str(name.substring_char(2, n))
    } else {
        String::from_str(name)
    }
}

/// Returns the identifier formed from `name` and `suffix`.
pub fn suffixed_ident(name: &str, suffix: &str) -> (res: String)
    ensures
        res@ == suffixed(name@, suffix@),
{
    let mut res = ident_fragment(name);
    res.append(suffix);
    res
}

/// The identifiers of the items generated for a struct, as sequences.
pub struct NamesView {
    pub name: Seq<char>,
    pub soa: Seq<char>,
    pub ptr: Seq<char>,
    pub mut_ptr: Seq<char>,
    pub iter: Seq<char>,
    pub ref_name: Seq<char>,
    pub iter_ref: Seq<char>,
    pub mut_name: Seq<char>,
    pub iter_mut: Seq<char>,
}

/// The identifiers generated for the struct named `name`.
pub open spec fn names_for(name: Seq<char>) -> NamesView {
    NamesView {
        name: name,
        soa: suffixed(name, "Soa"@),
        ptr: suffixed(name, "Ptr"@),
        mut_ptr: suffixed(name, "MutPtr"@),
        iter: suffixed(name, "Iter"@),
        ref_name: suffixed(name, "Ref"@),
        iter_ref: suffixed(name, "IterRef"@),
        mut_name: suffixed(name, "Mut"@),
        iter_mut: suffixed(name, "IterMut"@),
    }
}

/// The identifiers of the items generated for a struct.
pub struct GeneratedNames {
    /// The struct's own identifier.
    pub name: String,
    /// The collection: `{name}Soa`.
    pub soa: String,
    /// The column pointers: `{name}Ptr`.
    pub ptr: String,
    /// The mutable column pointers: `{name}MutPtr`.
    pub mut_ptr: String,
    /// The owning iterator: `{name}Iter`.
    pub iter: String,
    /// The row of shared references: `{name}Ref`.
    pub ref_name: String,
    /// The iterator over shared rows: `{name}IterRef`.
    pub iter_ref: String,
    /// The row of mutable references: `{name}Mut`.
    pub mut_name: String,
    /// The iterator over mutable rows: `{name}IterMut`.
    pub iter_mut: String,
}

impl View for GeneratedNames {
    type V = NamesView;

    open spec fn view(&self) -> NamesView {
        NamesView {
            name: self.name@,
            soa: self.soa@,
            ptr: self.ptr@,
            mut_ptr: self.mut_ptr@,
            iter: self.iter@,
            ref_name: self.ref_name@,
            iter_ref: self.iter_ref@,
            mut_name: self.mut_name@,
            iter_mut: self.iter_mut@,
        }
    }
}

/// Returns the identifiers generated for the struct named `name`.
pub fn generated_names(name: &String) -> (res: GeneratedNames)
    ensures
        res@ == names_for(name@),
{
    let s = name.as_str();
    GeneratedNames {
        name: name.clone(),
        soa: suffixed_ident(s, "Soa"),
        ptr: suffixed_ident(s, "Ptr"),
        mut_ptr: suffixed_ident(s, "MutPtr"),
        iter: suffixed_ident(s, "Iter"),
        ref_name: suffixed_ident(s, "Ref"),
        iter_ref: suffixed_ident(s, "IterRef"),
        mut_name: suffixed_ident(s, "Mut"),
        iter_mut: suffixed_ident(s, "IterMut"),
    }
}

} // verus!
