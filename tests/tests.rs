use is_variant::{
    format_predicate_name, generate_methods, impl_is_variant, Data, Error, Fields,
    GeneratedMethod, GenericParam, Generics, GenericsExt, Instance, TypeDef, Variant,
};

fn s(text: &str) -> String {
    text.to_string()
}

fn lifetime(name: &str, bounds: &[&str]) -> GenericParam {
    GenericParam::Lifetime { lifetime: s(name), bounds: bounds.iter().map(|b| s(b)).collect() }
}

fn type_param(name: &str, bounds: &[&str], default: Option<&str>) -> GenericParam {
    GenericParam::Type {
        ident: s(name),
        bounds: bounds.iter().map(|b| s(b)).collect(),
        default: default.map(s),
    }
}

fn foo_generics() -> Generics {
    Generics {
        has_angle_brackets: true,
        params: vec![lifetime("'a", &[]), lifetime("'b", &["'a"]), type_param("T", &[], Some("String"))],
        where_clause: None,
    }
}

fn foo_variants() -> Vec<Variant> {
    vec![
        Variant { ident: s("BarUnit"), fields: Fields::Unit },
        Variant { ident: s("BazNewtype"), fields: Fields::Unnamed(vec![s("T")]) },
        Variant { ident: s("QuxTuple"), fields: Fields::Unnamed(vec![s("T"), s("&'a T")]) },
        Variant { ident: s("LolStruct"), fields: Fields::Named(vec![s("field")]) },
    ]
}

fn instance(variant: &str, payload: &[&str]) -> Instance {
    Instance { variant: s(variant), payload: payload.iter().map(|p| s(p)).collect() }
}

fn ask(methods: &[GeneratedMethod], name: &str, value: &Instance) -> bool {
    let matching: Vec<&GeneratedMethod> = methods.iter().filter(|m| m.name == name).collect();
    assert_eq!(matching.len(), 1, "no single method named {}", name);
    matching[0].call(value)
}

#[test]
fn it_works() {
    let methods = generate_methods(&foo_variants());

    let unit = instance("BarUnit", &[]);
    let newtype = instance("BazNewtype", &[""]);
    let tuple = instance("QuxTuple", &["-42", "&42"]);
    let structure = instance("LolStruct", &["&3.14"]);

    assert!(ask(&methods, "is_bar_unit", &unit));
    assert!(!ask(&methods, "is_baz_newtype", &unit));
    assert!(!ask(&methods, "is_qux_tuple", &unit));
    assert!(!ask(&methods, "is_lol_struct", &unit));

    assert!(!ask(&methods, "is_bar_unit", &newtype));
    assert!(ask(&methods, "is_baz_newtype", &newtype));
    assert!(!ask(&methods, "is_qux_tuple", &newtype));
    assert!(!ask(&methods, "is_lol_struct", &newtype));

    assert!(!ask(&methods, "is_bar_unit", &tuple));
    assert!(!ask(&methods, "is_baz_newtype", &tuple));
    assert!(ask(&methods, "is_qux_tuple", &tuple));
    assert!(!ask(&methods, "is_lol_struct", &tuple));

    assert!(!ask(&methods, "is_bar_unit", &structure));
    assert!(!ask(&methods, "is_baz_newtype", &structure));
    assert!(!ask(&methods, "is_qux_tuple", &structure));
    assert!(ask(&methods, "is_lol_struct", &structure));
}

#[test]
fn foo_expansion_text() {
    let def = TypeDef { ident: s("Foo"), generics: foo_generics(), data: Data::Enum(foo_variants()) };
    let text = impl_is_variant(def).unwrap();
    assert_eq!(
        text,
        "impl<'a, 'b: 'a, T> Foo<'a, 'b, T>  { \
         pub fn is_bar_unit(&self) -> bool { if let &Foo::BarUnit = self { true } else { false } } \
         pub fn is_baz_newtype(&self) -> bool { if let &Foo::BazNewtype(..) = self { true } else { false } } \
         pub fn is_qux_tuple(&self) -> bool { if let &Foo::QuxTuple(..) = self { true } else { false } } \
         pub fn is_lol_struct(&self) -> bool { if let &Foo::LolStruct { .. } = self { true } else { false } } }"
    );
}

#[test]
fn no_generics_give_empty_components() {
    let g = Generics { has_angle_brackets: false, params: vec![], where_clause: None };
    let c = g.into_pruned_components();
    assert_eq!(c.impl_params, "");
    assert_eq!(c.type_params, "");
    assert_eq!(c.where_bounds, "");
}

#[test]
fn no_generics_drop_where_clause() {
    let g = Generics { has_angle_brackets: false, params: vec![], where_clause: Some(vec![s("u8: Copy")]) };
    let c = g.into_pruned_components();
    assert_eq!(c.where_bounds, "");
}

#[test]
fn mixed_generics_strip_defaults_keep_bounds() {
    let c = foo_generics().into_pruned_components();
    assert_eq!(c.impl_params, "'a, 'b: 'a, T");
    assert_eq!(c.type_params, "'a, 'b, T");
    assert_eq!(c.where_bounds, "");
}

#[test]
fn const_params_and_where_clause() {
    let g = Generics {
        has_angle_brackets: true,
        params: vec![
            type_param("T", &["Clone", "Into<u8>"], None),
            GenericParam::Const { ident: s("N"), ty: s("usize"), default: Some(s("3")) },
        ],
        where_clause: Some(vec![s("T: Copy"), s("[T; N]: Default")]),
    };
    let c = g.into_pruned_components();
    assert_eq!(c.impl_params, "T: Clone + Into<u8>, const N: usize");
    assert_eq!(c.type_params, "T, N");
    assert_eq!(c.where_bounds, "where T: Copy, [T; N]: Default");
}

#[test]
fn empty_where_clause_writes_nothing() {
    let g = Generics {
        has_angle_brackets: true,
        params: vec![type_param("T", &[], None)],
        where_clause: Some(vec![]),
    };
    let c = g.into_pruned_components();
    assert_eq!(c.impl_params, "T");
    assert_eq!(c.type_params, "T");
    assert_eq!(c.where_bounds, "");
}

#[test]
fn predicate_names_are_snake_case() {
    assert_eq!(format_predicate_name("BarUnit"), "is_bar_unit");
    assert_eq!(format_predicate_name("XMLHttpRequest"), "is_xml_http_request");
    assert_eq!(format_predicate_name("A"), "is_a");
    assert_eq!(format_predicate_name("already_snake"), "is_already_snake");
}

#[test]
fn predicate_names_distinct_over_variants() {
    let names: Vec<String> = ["BarUnit", "BazNewtype", "QuxTuple", "LolStruct", "Bar", "Unit"]
        .iter()
        .map(|v| format_predicate_name(v))
        .collect();
    for i in 0..names.len() {
        for j in 0..names.len() {
            assert_eq!(i == j, names[i] == names[j]);
        }
    }
    assert_eq!(format_predicate_name("BarUnit"), format_predicate_name("BarUnit"));
}

#[test]
fn predicates_ignore_payload() {
    let variants = vec![
        Variant { ident: s("Empty"), fields: Fields::Unit },
        Variant { ident: s("One"), fields: Fields::Unnamed(vec![s("u8")]) },
        Variant { ident: s("Two"), fields: Fields::Unnamed(vec![s("u8"), s("u16")]) },
        Variant { ident: s("Named"), fields: Fields::Named(vec![s("x"), s("y")]) },
    ];
    let methods = generate_methods(&variants);
    let values = [
        instance("Empty", &[]),
        instance("One", &["0"]),
        instance("One", &["255"]),
        instance("Two", &["1", "2"]),
        instance("Two", &["9", "65535"]),
        instance("Named", &["x: 1", "y: 2"]),
        instance("Named", &["x: 7", "y: 0"]),
    ];
    for v in values.iter() {
        for m in methods.iter() {
            assert_eq!(m.call(v), m.variant == v.variant);
        }
    }
    assert_eq!(methods[0].ignore_fields, "");
    assert_eq!(methods[1].ignore_fields, "(..)");
    assert_eq!(methods[2].ignore_fields, "(..)");
    assert_eq!(methods[3].ignore_fields, " { .. }");
}

#[test]
fn struct_is_not_an_enum() {
    let def = TypeDef { ident: s("Point"), generics: foo_generics(), data: Data::Struct };
    let r = impl_is_variant(def);
    assert!(matches!(r, Err(Error::NotAnEnum)));
    assert_eq!(r.unwrap_err().message(), "only `enum`s have variants to check");
}

#[test]
fn union_is_not_an_enum() {
    let def = TypeDef {
        ident: s("Bits"),
        generics: Generics { has_angle_brackets: false, params: vec![], where_clause: None },
        data: Data::Union,
    };
    assert!(matches!(impl_is_variant(def), Err(Error::NotAnEnum)));
}

#[test]
fn parse_error_keeps_message() {
    let e = Error::Parse(s("expected `struct`, `enum` or `union`"));
    assert_eq!(e.message(), "expected `struct`, `enum` or `union`");
}

#[test]
fn enum_without_generics_or_variants() {
    let def = TypeDef {
        ident: s("Never"),
        generics: Generics { has_angle_brackets: false, params: vec![], where_clause: None },
        data: Data::Enum(vec![]),
    };
    assert_eq!(impl_is_variant(def).unwrap(), "impl<> Never<>  {  }");
}
