use soa_derive::expand::{access_body_text, derive_soa, SoaError};
use soa_derive::input::{Data, DeriveInput, Field, Fields, TypeKind};
use soa_derive::lines::{field_line_text, field_lines_text, field_list_text, LineKind};
use soa_derive::names::{generated_names, ident_fragment, suffixed_ident};
use soa_derive::send::{fields_are_send, is_non_send_type};

fn field(ident: &str, ty: &str, kind: TypeKind) -> Field {
    Field { ident: ident.to_string(), ty: ty.to_string(), kind }
}

fn path(last: &str) -> TypeKind {
    TypeKind::Path(Some(last.to_string()))
}

fn named(ident: &str, fields: Vec<Field>) -> DeriveInput {
    DeriveInput { ident: ident.to_string(), data: Data::Struct(Fields::Named(fields)) }
}

fn point() -> DeriveInput {
    named("Point", vec![field("x", "f32", path("f32")), field("y", "f32", path("f32"))])
}

fn generate(input: &DeriveInput) -> String {
    derive_soa(input).expect("a struct with named fields")
}

fn squash(s: &str) -> String {
    s.split_whitespace().collect::<Vec<_>>().join(" ")
}

#[test]
fn non_send_types() {
    assert!(is_non_send_type(&TypeKind::Ptr));
    for name in ["Rc", "Cell", "RefCell", "UnsafeCell", "Mutex", "RwLock"] {
        assert!(is_non_send_type(&path(name)), "{name}");
    }
    for name in ["Arc", "Vec", "u32", "rc", "Rc2", "r#Rc"] {
        assert!(!is_non_send_type(&path(name)), "{name}");
    }
    assert!(!is_non_send_type(&TypeKind::Path(None)));
    assert!(!is_non_send_type(&TypeKind::Other));
}

#[test]
fn fields_are_send_looks_at_every_field() {
    assert!(fields_are_send(&vec![]));
    assert!(fields_are_send(&vec![field("a", "u8", path("u8")), field("b", "String", path("String"))]));
    assert!(!fields_are_send(&vec![field("a", "u8", path("u8")), field("b", "* const u8", TypeKind::Ptr)]));
    assert!(!fields_are_send(&vec![field("a", "Cell < u8 >", path("Cell")), field("b", "u8", path("u8"))]));
}

#[test]
fn fragments_drop_the_raw_marker() {
    assert_eq!(ident_fragment("r#type"), "type");
    assert_eq!(ident_fragment("type"), "type");
    assert_eq!(ident_fragment("r"), "r");
    assert_eq!(ident_fragment("r_"), "r_");
    assert_eq!(ident_fragment(""), "");
    assert_eq!(suffixed_ident("r#Foo", "Soa"), "FooSoa");
    assert_eq!(suffixed_ident("Foo", "_mut"), "Foo_mut");
}

#[test]
fn generated_names_of_a_struct() {
    let n = generated_names(&"Point".to_string());
    assert_eq!(n.name, "Point");
    assert_eq!(n.soa, "PointSoa");
    assert_eq!(n.ptr, "PointPtr");
    assert_eq!(n.mut_ptr, "PointMutPtr");
    assert_eq!(n.iter, "PointIter");
    assert_eq!(n.ref_name, "PointRef");
    assert_eq!(n.iter_ref, "PointIterRef");
    assert_eq!(n.mut_name, "PointMut");
    assert_eq!(n.iter_mut, "PointIterMut");
}

#[test]
fn raw_and_plain_identifiers_give_the_same_names() {
    let raw = generated_names(&"r#Point".to_string());
    let plain = generated_names(&"Point".to_string());
    assert_eq!(raw.name, "r#Point");
    assert_eq!(raw.soa, plain.soa);
    assert_eq!(raw.iter_mut, plain.iter_mut);
}

#[test]
fn generated_names_are_distinct() {
    for name in ["P", "Point", "r#Point", "Soa", "Mut"] {
        let n = generated_names(&name.to_string());
        let all = [&n.name, &n.soa, &n.ptr, &n.mut_ptr, &n.iter, &n.ref_name, &n.iter_ref, &n.mut_name, &n.iter_mut];
        for i in 0..all.len() {
            for j in i + 1..all.len() {
                assert_ne!(all[i], all[j], "{name}");
            }
        }
    }
}

#[test]
fn one_line_of_each_kind() {
    let f = field("x", "u32", path("u32"));
    assert_eq!(field_line_text(&LineKind::VecField, &f), "x: Vec<u32>, ");
    assert_eq!(field_line_text(&LineKind::PtrField, &f), "pub x: *const u32, ");
    assert_eq!(field_line_text(&LineKind::PtrAdd, &f), "x: unsafe { self.x.add(count) }, ");
    assert_eq!(field_line_text(&LineKind::RefField, &f), "x: &'a u32, ");
    assert_eq!(field_line_text(&LineKind::NextLet, &f), "let x = unsafe { self.x.next().unwrap_unchecked() }; ");
    let raw = field("r#type", "u8", path("u8"));
    assert_eq!(
        field_line_text(&LineKind::MutAccessor, &raw),
        "pub fn type_mut(&mut self) -> &mut [u8] { &mut self.r#type } "
    );
    assert_eq!(field_line_text(&LineKind::Accessor, &raw), "pub fn r#type(&self) -> &[u8] { &self.r#type } ");
}

#[test]
fn one_line_per_field_in_order() {
    let fs = vec![field("a", "u8", path("u8")), field("b", "u16", path("u16")), field("c", "u32", path("u32"))];
    assert_eq!(field_lines_text(&LineKind::VecNew, &fs, 0), "a: Vec::new(), b: Vec::new(), c: Vec::new(), ");
    assert_eq!(field_lines_text(&LineKind::GetLet, &fs, 1), "let b = &self.b[index]; let c = &self.c[index]; ");
    assert_eq!(field_lines_text(&LineKind::GetLet, &fs, 3), "");
    let whole = field_lines_text(&LineKind::Push, &fs, 0);
    let parts: String = fs.iter().map(|f| field_line_text(&LineKind::Push, f)).collect();
    assert_eq!(whole, parts);
    assert_eq!(field_list_text(&fs), "a, b, c");
    assert_eq!(field_list_text(&vec![]), "");
    assert_eq!(field_list_text(&vec![field("a", "u8", path("u8"))]), "a");
}

#[test]
fn row_access_bodies() {
    let one = vec![field("a", "u8", path("u8"))];
    assert_eq!(
        access_body_text(&one, "get(index)", &LineKind::GetLet, &"PRef".to_string()),
        "self.a.get(index).map(|a| PRef { a })"
    );
    let two = vec![field("a", "u8", path("u8")), field("b", "u8", path("u8"))];
    assert_eq!(
        access_body_text(&two, "next()", &LineKind::NextLet, &"P".to_string()),
        "self.a.next().map(|a| { let b = unsafe { self.b.next().unwrap_unchecked() }; P { a, b } })"
    );
}

#[test]
fn refused_inputs() {
    let e = DeriveInput { ident: "E".to_string(), data: Data::Enum };
    assert_eq!(derive_soa(&e), Err(SoaError::NotAStruct));
    let u = DeriveInput { ident: "U".to_string(), data: Data::Union };
    assert_eq!(derive_soa(&u), Err(SoaError::NotAStruct));
    let t = DeriveInput { ident: "T".to_string(), data: Data::Struct(Fields::Unnamed) };
    assert_eq!(derive_soa(&t), Err(SoaError::NotNamedFields));
    let unit = DeriveInput { ident: "T".to_string(), data: Data::Struct(Fields::Unit) };
    assert_eq!(derive_soa(&unit), Err(SoaError::NotNamedFields));
    assert_eq!(derive_soa(&named("Empty", vec![])), Err(SoaError::NoFields));
    assert_eq!(SoaError::NotAStruct.message(), "Soa only supports structs");
    assert_eq!(SoaError::NotNamedFields.message(), "Soa only supports structs with named fields");
    assert_eq!(SoaError::NoFields.message(), "index out of bounds: the len is 0 but the index is 0");
}

#[test]
fn collection_has_one_column_per_field() {
    let code = generate(&point());
    assert!(code.contains("pub struct PointSoa { x: Vec<f32>, y: Vec<f32>, } "));
    assert!(code.contains("pub fn len(&self) -> usize { self.x.len() }"));
    assert!(code.contains("pub fn into_inner(self) -> (Vec<f32>, Vec<f32>, ) { (self.x, self.y, ) }"));
    assert!(code.contains("pub fn push(&mut self, item: Point) { self.x.push(item.x); self.y.push(item.y); }"));
    assert!(code.contains("pub fn get(&self, index: usize) -> Option<PointRef> { self.x.get(index).map(|x| { let y = &self.y[index]; PointRef { x, y } }) }"));
}

#[test]
fn generated_source_is_valid_rust() {
    let inputs = vec![
        point(),
        named("Single", vec![field("value", "u64", path("u64"))]),
        named(
            "r#Mixed",
            vec![
                field("r#type", "u8", path("u8")),
                field("name", "String", path("String")),
                field("raw", "* const u8", TypeKind::Ptr),
                field("shared", "std :: rc :: Rc < u32 >", path("Rc")),
            ],
        ),
    ];
    for input in &inputs {
        let code = generate(input);
        let file = syn::parse_file(&code).expect("generated source parses as a file");
        let par = code.contains("ParExtendCore");
        assert_eq!(file.items.len(), if par { 26 } else { 24 });
    }
}

#[test]
fn par_extend_only_when_every_field_is_send() {
    assert!(generate(&point()).contains("impl ::orx_parallel::collectables::ParExtendCore<Point> for PointSoa"));
    for bad in [field("p", "* mut u8", TypeKind::Ptr), field("c", "Cell < u8 >", path("Cell")), field("m", "Mutex < u8 >", path("Mutex"))] {
        let input = named("Point", vec![field("x", "f32", path("f32")), bad]);
        let code = generate(&input);
        assert!(!code.contains("orx_parallel"));
        assert!(!code.contains("orx_priority_queue"));
    }
}

#[test]
fn single_field_rows_are_built_directly() {
    let code = generate(&named("Single", vec![field("value", "u64", path("u64"))]));
    assert!(code.contains("self.value.get(index).map(|value| SingleRef { value })"));
    assert!(code.contains("self.value.get_mut(index).map(|value| SingleMut { value })"));
    assert!(code.contains("self.value.next().map(|value| Single { value })"));
    assert!(squash(&code).contains("impl<'a> IntoIterator for &'a mut SingleSoa"));
}

#[test]
fn raw_struct_name_keeps_its_marker_where_used_as_is() {
    let code = generate(&named("r#Mixed", vec![field("a", "u8", path("u8"))]));
    assert!(code.contains("pub struct MixedSoa"));
    assert!(code.contains("impl Extend<r#Mixed> for MixedSoa"));
}
