use pl_hlist::as_hlist::{derive_as_hlist, expand_hlist_support, AsHListError};
use pl_hlist::item::{parse_item, Attribute, Field, Item, Shape};
use proc_macro2::TokenStream;

fn tokens(source: &str) -> TokenStream {
    source.parse().unwrap()
}

fn parsed(source: &str) -> Item {
    parse_item(tokens(source)).unwrap()
}

fn field(name: &str, ty: &str) -> Field {
    Field { name: Some(tokens(name)), ty: tokens(ty) }
}

#[test]
fn expand_hlist_support_hands_on_one_conversion_in_both_directions() {
    let mut pushed = vec![tokens("struct Before;")];
    assert_eq!(expand_hlist_support(&mut pushed, &parsed("struct S { a: u8, b: i32 }")), Ok(()));
    assert_eq!(pushed.len(), 2);
    assert_eq!(pushed[0].to_string(), "struct Before ;");
    assert_eq!(
        pushed[1].to_string(),
        tokens(
            "#[allow(dead_code)]
             impl AsHList < HCons < u8 , HCons < i32 , HNil > > > for S {
                 fn from_hlist(hlist: HCons < u8 , HCons < i32 , HNil > >) -> Self {
                     match hlist {
                         HCons(a, HCons(b, HNil)) => S { a: a, b: b }
                     }
                 }

                 fn to_hlist(&self) -> HCons < u8 , HCons < i32 , HNil > > {
                     HCons(self.a.clone(), HCons(self.b.clone(), HNil))
                 }
             }"
        )
        .to_string()
    );
}

#[test]
fn expand_hlist_support_spells_each_token_out() {
    let mut pushed = Vec::new();
    expand_hlist_support(&mut pushed, &parsed("struct S { a: u8 }")).unwrap();
    assert_eq!(pushed.len(), 1);
    assert_eq!(
        pushed[0].to_string(),
        "# [allow (dead_code)] impl AsHList < HCons < u8 , HNil > > for S \
         { fn from_hlist (hlist : HCons < u8 , HNil >) -> Self \
         { match hlist { HCons (a , HNil) => S { a : a } } } \
         fn to_hlist (& self) -> HCons < u8 , HNil > { HCons (self . a . clone () , HNil) } }"
    );
}

#[test]
fn expand_hlist_support_takes_every_struct_without_fields() {
    for source in ["struct S { }", "struct S;", "struct S();"] {
        let mut pushed = Vec::new();
        assert_eq!(expand_hlist_support(&mut pushed, &parsed(source)), Ok(()));
        assert_eq!(pushed.len(), 1);
        assert_eq!(
            pushed[0].to_string(),
            "# [allow (dead_code)] impl AsHList < HNil > for S \
             { fn from_hlist (hlist : HNil) -> Self { match hlist { HNil => S { } } } \
             fn to_hlist (& self) -> HNil { HNil } }"
        );
    }
}

#[test]
fn expand_hlist_support_lets_the_conversion_inherit_the_lint_attributes() {
    let item = parsed("#[derive(Clone)] #[deny(missing_docs)] #[allow(unused)] struct S { a: u8 }");
    let mut pushed = Vec::new();
    expand_hlist_support(&mut pushed, &item).unwrap();
    assert_eq!(pushed.len(), 1);
    assert!(pushed[0].to_string().starts_with(
        "# [allow (dead_code)] # [deny (missing_docs)] # [allow (unused)] impl AsHList < "
    ));
}

#[test]
fn expand_hlist_support_refuses_what_is_no_struct() {
    let mut pushed = vec![tokens("struct Before;")];
    for source in ["enum E { A, B }", "union U { a: u8, b: i8 }"] {
        assert_eq!(
            expand_hlist_support(&mut pushed, &parsed(source)),
            Err(AsHListError::NotAStruct)
        );
    }
    let function = Item {
        attrs: Vec::<Attribute>::new(),
        name: tokens("f"),
        shape: Shape::Other,
        fields: Vec::new(),
    };
    assert_eq!(expand_hlist_support(&mut pushed, &function), Err(AsHListError::NotAStruct));
    assert_eq!(pushed.len(), 1);
    assert_eq!(pushed[0].to_string(), "struct Before ;");
    assert_eq!(AsHListError::NotAStruct.message(), "`AsHList` may only be applied to structs");
}

#[test]
fn expand_hlist_support_refuses_a_struct_with_unnamed_fields() {
    let mut pushed = Vec::new();
    for source in ["struct S(u8, u8);", "struct S(u8);"] {
        assert_eq!(
            expand_hlist_support(&mut pushed, &parsed(source)),
            Err(AsHListError::UnnamedFields)
        );
    }
    assert!(pushed.is_empty());
    assert_eq!(
        AsHListError::UnnamedFields.message(),
        "`Lensed` may only be applied to structs with named fields"
    );
}

#[test]
fn as_hlist_derive_as_hlist_hands_on_one_item() {
    let item = Item {
        attrs: Vec::new(),
        name: tokens("Pair"),
        shape: Shape::NamedStruct,
        fields: vec![field("left", "String"), field("right", "Vec < u8 >")],
    };
    let mut pushed = Vec::new();
    derive_as_hlist(&mut pushed, &item);
    assert_eq!(pushed.len(), 1);
    let list = "HCons < String , HCons < Vec < u8 > , HNil > >";
    assert_eq!(
        pushed[0].to_string(),
        format!(
            "# [allow (dead_code)] impl AsHList < {list} > for Pair \
             {{ fn from_hlist (hlist : {list}) -> Self \
             {{ match hlist {{ HCons (left , HCons (right , HNil)) => \
             Pair {{ left : left , right : right }} }} }} \
             fn to_hlist (& self) -> {list} \
             {{ HCons (self . left . clone () , HCons (self . right . clone () , HNil)) }} }}",
            list = list
        )
    );
}
