//! Assembling the `impl` block of query methods for an `enum`.

use vstd::prelude::*;
use crate::generics::{
    Components, Generics, GenericsExt, impl_params_text, type_params_text, where_bounds_text,
};
use crate::text::{join, join_strings, strings_view};
use crate::variant::{
    GeneratedMethod, Variant, generate_methods, ignore_fields_text, method_text,
    predicate_name,
};

verus! {

/// The body of a type definition.
#[derive(Clone, Debug)]
pub enum Data {
    Enum(Vec<Variant>),
    Struct,
    Union,
}

/// A type definition that the methods are derived for.
#[derive(Clone, Debug)]
pub struct TypeDef {
    pub ident: String,
    pub generics: Generics,
    pub data: Data,
}

/// Why no methods could be derived.
#[derive(Clone, Debug)]
pub enum Error {
    /// The input is not a type definition; the parser's message.
    Parse(String),
    /// The type is not an `enum`.
    NotAnEnum,
}

/// The text of an error.
pub open spec fn error_message(e: Error) -> Seq<char> {
    match e {
        Error::Parse(message) => message@,
        Error::NotAnEnum => "only `enum`s have variants to check"@,
    }
}

impl Error {
    /// The text of the error, for a diagnostic.
    pub fn message(&self) -> (r: String)
        ensures
            r@ == error_message(*self),
    {
        match self {
            Error::Parse(message) => message.clone(),
            Error::NotAnEnum => String::from_str("only `enum`s have variants to check"),
        }
    }
}

/// The source text of the query method for variant `v` of type `ty`.
pub open spec fn variant_method_text(ty: Seq<char>, v: Variant) -> Seq<char> {
    method_text(ty, predicate_name(v.ident@), v.ident@, ignore_fields_text(v.fields))
}

/// The `impl` block around the given method texts.
pub open spec fn impl_block_text(
    ty: Seq<char>,
    impl_params: Seq<char>,
    type_params: Seq<char>,
    where_bounds: Seq<char>,
    methods: Seq<Seq<char>>,
) -> Seq<char> {
    "impl<"@ + impl_params + "> "@ + ty + "<"@ + type_params + "> "@ + where_bounds + " { "@
        + join(methods, " "@) + " }"@
}

/// The whole generated text for an `enum` named `ty`.
pub open spec fn expansion_text(ty: Seq<char>, g: Generics, variants: Seq<Variant>) -> Seq<char> {
    impl_block_text(
        ty,
        impl_params_text(g),
        type_params_text(g),
        where_bounds_text(g),
        variants.map_values(|v: Variant| variant_method_text(ty, v)),
    )
}

/// Writes the `impl` block for the type `ty` from its header components
/// and its methods.
pub fn assemble(ty: &str, components: &Components, methods: &Vec<GeneratedMethod>) -> (r: String)
    ensures
        r@ == impl_block_text(
            ty@,
            components.impl_params@,
            components.type_params@,
            components.where_bounds@,
            methods@.map_values(
                |m: GeneratedMethod| method_text(ty@, m.name@, m.variant@, m.ignore_fields@),
            ),
        ),
{
    let mut texts: Vec<String> = Vec::new();
    let mut i: usize = 0;
    while i < methods.len()
        invariant
            i <= methods.len(),
            texts.len() == i,
            forall|k: int|
                0 <= k < i ==> #[trigger] texts@[k]@ == method_text(
                    ty@,
                    methods@[k].name@,
                    methods@[k].variant@,
                    methods@[k].ignore_fields@,
                ),
        decreases methods.len() - i,
    {
        texts.push(methods[i].to_text(ty));
        i = i + 1;
    }
    assert(strings_view(texts@) =~= methods@.map_values(
        |m: GeneratedMethod| method_text(ty@, m.name@, m.variant@, m.ignore_fields@),
    ));
    let mut s = String::from_str("impl<");
    s.append(components.impl_params.as_str());
    s.append("> ");
    s.append(ty);
    s.append("<");
    s.append(components.type_params.as_str());
    s.append("> ");
    s.append(components.where_bounds.as_str());
    s.append(" { ");
    let body = join_strings(&texts, " ");
    s.append(body.as_str());
    s.append(" }");
    s
}

/// Implements `is_XXX` methods for an `enum`: one per variant, in order,
/// inside one `impl` block that keeps the type's generics.
pub fn impl_is_variant(input: TypeDef) -> (r: Result<String, Error>)
    ensures
        r is Ok <==> input.data is Enum,
        !(input.data is Enum) ==> r == Err::<String, Error>(Error::NotAnEnum),
        r matches Ok(text) ==> text@ == expansion_text(
            input.ident@,
            input.generics,
            input.data->Enum_0@,
        ),
{
    let TypeDef { ident, generics, data } = input;
    let variants = match data {
        Data::Enum(variants) => variants,
        _ => return Err(Error::NotAnEnum),
    };
    let components = generics.into_pruned_components();
    let methods = generate_methods(&variants);
    let r = assemble(ident.as_str(), &components, &methods);
    assert(methods@.map_values(
        |m: GeneratedMethod| method_text(ident@, m.name@, m.variant@, m.ignore_fields@),
    ) =~= variants@.map_values(|v: Variant| variant_method_text(ident@, v)));
    Ok(r)
}

} // verus!
