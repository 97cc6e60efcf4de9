use pl_hlist::derive::{
    hlist_cloned_init, hlist_init, hlist_pattern, hlist_type, struct_field_init,
};
use pl_hlist::item::Field;
use proc_macro2::TokenStream;

fn tokens(source: &str) -> TokenStream {
    source.parse().unwrap()
}

fn field(name: &str, ty: &str) -> Field {
    Field { name: Some(tokens(name)), ty: tokens(ty) }
}

fn unnamed(ty: &str) -> Field {
    Field { name: None, ty: tokens(ty) }
}

fn inner_fields() -> Vec<Field> {
    vec![field("f1", "u8"), field("f2", "u8")]
}

#[test]
fn hlist_type_of_no_field_is_hnil() {
    assert_eq!(hlist_type(&[]).to_string(), "HNil");
}

#[test]
fn hlist_type_of_one_field() {
    assert_eq!(hlist_type(&[field("a", "u8")]).to_string(), "HCons < u8 , HNil >");
}

#[test]
fn hlist_type_nests_in_field_order() {
    assert_eq!(hlist_type(&inner_fields()).to_string(), "HCons < u8 , HCons < u8 , HNil > >");
    let fields = vec![field("foo", "u8"), field("bar", "TestInnerStruct"), field("baz", "i32")];
    assert_eq!(
        hlist_type(&fields).to_string(),
        "HCons < u8 , HCons < TestInnerStruct , HCons < i32 , HNil > > >"
    );
}

#[test]
fn hlist_type_keeps_the_tokens_of_each_type() {
    let fields = vec![field("a", "Vec < u8 >"), field("b", "Option < & 'static str >")];
    assert_eq!(
        hlist_type(&fields).to_string(),
        "HCons < Vec < u8 > , HCons < Option < & 'static str > , HNil > >"
    );
    let fields = vec![field("a", "[u8 ; 4]"), field("b", "(u8 , String)")];
    assert_eq!(
        hlist_type(&fields).to_string(),
        "HCons < [u8 ; 4] , HCons < (u8 , String) , HNil > >"
    );
}

#[test]
fn hlist_type_reads_types_only() {
    let named = vec![field("a", "u8"), field("b", "i32")];
    let bare = vec![unnamed("u8"), unnamed("i32")];
    assert_eq!(hlist_type(&named).to_string(), hlist_type(&bare).to_string());
}

#[test]
fn the_names_alone_decide_the_pattern_and_the_expressions() {
    let bytes = vec![field("a", "u8"), field("b", "u8")];
    let other = vec![field("a", "Vec < String >"), field("b", "(i32 , i32)")];
    assert_eq!(hlist_pattern(&bytes).to_string(), hlist_pattern(&other).to_string());
    assert_eq!(hlist_init(&bytes).to_string(), hlist_init(&other).to_string());
    assert_eq!(hlist_cloned_init(&bytes).to_string(), hlist_cloned_init(&other).to_string());
    assert_eq!(struct_field_init(&bytes).to_string(), struct_field_init(&other).to_string());
    assert_ne!(hlist_type(&bytes).to_string(), hlist_type(&other).to_string());
}

#[test]
fn hlist_pattern_of_no_field_is_hnil() {
    assert_eq!(hlist_pattern(&[]).to_string(), "HNil");
}

#[test]
fn hlist_pattern_nests_in_field_order() {
    assert_eq!(hlist_pattern(&[field("a", "u8")]).to_string(), "HCons (a , HNil)");
    assert_eq!(hlist_pattern(&inner_fields()).to_string(), "HCons (f1 , HCons (f2 , HNil))");
}

#[test]
fn hlist_pattern_is_a_pattern_of_the_list() {
    assert_eq!(
        hlist_pattern(&inner_fields()).to_string(),
        tokens("HCons(f1, HCons(f2, HNil))").to_string()
    );
}

#[test]
fn hlist_pattern_keeps_the_place_of_a_field_without_name() {
    let fields = vec![unnamed("u8"), field("b", "u8")];
    assert_eq!(hlist_pattern(&fields).to_string(), "HCons (, HCons (b , HNil))");
}

#[test]
fn hlist_init_of_no_field_is_hnil() {
    assert_eq!(hlist_init(&[]).to_string(), "HNil");
}

#[test]
fn hlist_init_moves_each_field_of_self() {
    assert_eq!(hlist_init(&[field("a", "u8")]).to_string(), "HCons (self . a , HNil)");
    assert_eq!(
        hlist_init(&inner_fields()).to_string(),
        "HCons (self . f1 , HCons (self . f2 , HNil))"
    );
    assert_eq!(
        hlist_init(&inner_fields()).to_string(),
        tokens("HCons(self.f1, HCons(self.f2, HNil))").to_string()
    );
}

#[test]
fn hlist_cloned_init_of_no_field_is_hnil() {
    assert_eq!(hlist_cloned_init(&[]).to_string(), "HNil");
}

#[test]
fn hlist_cloned_init_clones_each_field_of_self() {
    assert_eq!(
        hlist_cloned_init(&[field("a", "u8")]).to_string(),
        "HCons (self . a . clone () , HNil)"
    );
    assert_eq!(
        hlist_cloned_init(&inner_fields()).to_string(),
        "HCons (self . f1 . clone () , HCons (self . f2 . clone () , HNil))"
    );
    assert_eq!(
        hlist_cloned_init(&inner_fields()).to_string(),
        tokens("HCons(self.f1.clone(), HCons(self.f2.clone(), HNil))").to_string()
    );
}

#[test]
fn struct_field_init_lists_the_names() {
    assert_eq!(struct_field_init(&[]).to_string(), "");
    assert!(struct_field_init(&[]).is_empty());
    assert_eq!(struct_field_init(&[field("a", "u8")]).to_string(), "a");
    assert_eq!(struct_field_init(&inner_fields()).to_string(), "f1 , f2");
    let fields = vec![field("foo", "u8"), field("bar", "TestInnerStruct"), field("baz", "i32")];
    assert_eq!(struct_field_init(&fields).to_string(), "foo , bar , baz");
}

#[test]
fn the_builders_leave_their_fields_as_they_were() {
    let fields = inner_fields();
    let first = hlist_type(&fields).to_string();
    let _ = hlist_pattern(&fields);
    let _ = hlist_init(&fields);
    let _ = hlist_cloned_init(&fields);
    let _ = struct_field_init(&fields);
    assert_eq!(hlist_type(&fields).to_string(), first);
    assert_eq!(fields[0].ty.to_string(), "u8");
    assert_eq!(fields[1].name.as_ref().unwrap().to_string(), "f2");
}
