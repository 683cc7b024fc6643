//! The `is_<variant>` method generated for one variant.

use vstd::prelude::*;

verus! {

/// The fields a variant carries, as written in the definition.
#[derive(Clone, Debug)]
pub enum Fields {
    /// No fields: `Bar`.
    Unit,
    /// Named fields, by name: `Bar { field: T }`.
    Named(Vec<String>),
    /// Positional fields, by type: `Bar(T, &'a T)`.
    Unnamed(Vec<String>),
}

/// One variant of an `enum`.
#[derive(Clone, Debug)]
pub struct Variant {
    pub ident: String,
    pub fields: Fields,
}

/// A value of an `enum`: the variant it was built as, and the values of its
/// fields written as text.
#[derive(Clone, Debug)]
pub struct Instance {
    pub variant: String,
    pub payload: Vec<String>,
}

/// A generated query method: `name` answers whether a value is `variant`;
/// `ignore_fields` is what follows the variant in its pattern.
#[derive(Clone, Debug)]
pub struct GeneratedMethod {
    pub name: String,
    pub variant: String,
    pub ignore_fields: String,
}

/// The snake case form of an identifier, as heck writes it.
pub uninterp spec fn snake_case_of(s: Seq<char>) -> Seq<char>;

/// Relies on heck's `SnakeCase::to_snake_case` for `str`: the snake case
/// form, which depends on the characters of `s` alone.
#[verifier::external_body]
fn to_snake_case(s: &str) -> (r: String)
    ensures
        r@ == snake_case_of(s@),
{
    heck::SnakeCase::to_snake_case(s)
}

/// The name of the query method for a variant: `is_` and the variant name,
/// the whole converted to snake case.
pub open spec fn predicate_name(variant: Seq<char>) -> Seq<char> {
    snake_case_of("is_"@ + variant)
}

/// The pattern that follows the variant's path and ignores its fields.
pub open spec fn ignore_fields_text(f: Fields) -> Seq<char> {
    match f {
        Fields::Unit => Seq::empty(),
        Fields::Named(_) => " { .. }"@,
        Fields::Unnamed(_) => "(..)"@,
    }
}

/// Whether `m` is the method generated for `v`.
pub open spec fn generated_for(m: GeneratedMethod, v: Variant) -> bool {
    &&& m.name@ == predicate_name(v.ident@)
    &&& m.variant@ == v.ident@
    &&& m.ignore_fields@ == ignore_fields_text(v.fields)
}

/// What the method answers on a value: whether the value was built as its
/// variant.
pub open spec fn answers(m: GeneratedMethod, value: Instance) -> bool {
    value.variant@ == m.variant@
}

/// The source text of a query method on the type `ty`.
pub open spec fn method_text(
    ty: Seq<char>,
    name: Seq<char>,
    variant: Seq<char>,
    ignore_fields: Seq<char>,
) -> Seq<char> {
    "pub fn "@ + name + "(&self) -> bool { if let &"@ + ty + "::"@ + variant + ignore_fields
        + " = self { true } else { false } }"@
}

/// Formats the name of the query method for a variant.
pub fn format_predicate_name(variant: &str) -> (r: String)
    ensures
        r@ == predicate_name(variant@),
{
    let mut s = String::from_str("is_");
    s.append(variant);
    to_snake_case(s.as_str())
}

/// Writes the pattern suffix that ignores the fields.
pub fn ignore_fields_string(f: &Fields) -> (r: String)
    ensures
        r@ == ignore_fields_text(*f),
{
    match f {
        Fields::Unit => String::new(),
        Fields::Named(_) => String::from_str(" { .. }"),
        Fields::Unnamed(_) => String::from_str("(..)"),
    }
}

/// Builds the method for `variant` under a name already formatted.
pub fn generate_method_named(name: String, variant: &Variant) -> (r: GeneratedMethod)
    ensures
        r.name == name,
        r.variant@ == variant.ident@,
        r.ignore_fields@ == ignore_fields_text(variant.fields),
{
    GeneratedMethod {
        name,
        variant: variant.ident.clone(),
        ignore_fields: ignore_fields_string(&variant.fields),
    }
}

/// Builds the query method for one variant.
pub fn generate_method(variant: &Variant) -> (r: GeneratedMethod)
    ensures
        generated_for(r, *variant),
{
    let name = format_predicate_name(variant.ident.as_str());
    generate_method_named(name, variant)
}

/// Builds the query methods of all variants, in declaration order.
pub fn generate_methods(variants: &Vec<Variant>) -> (r: Vec<GeneratedMethod>)
    ensures
        r.len() == variants.len(),
        forall|k: int| 0 <= k < r.len() ==> generated_for(#[trigger] r@[k], variants@[k]),
{
    let mut out: Vec<GeneratedMethod> = Vec::new();
    let mut i: usize = 0;
    while i < variants.len()
        invariant
            i <= variants.len(),
            out.len() == i,
            forall|k: int| 0 <= k < i ==> generated_for(#[trigger] out@[k], variants@[k]),
        decreases variants.len() - i,
    {
        out.push(generate_method(&variants[i]));
        i = i + 1;
    }
    out
}

impl GeneratedMethod {
    /// Runs the method on a value: true exactly when the value is of this
    /// method's variant, whatever its fields hold.
    pub fn call(&self, value: &Instance) -> (r: bool)
        ensures
            r == answers(*self, *value),
    {
        value.variant == self.variant
    }

    /// The source text of the method, on the type named `ty`.
    pub fn to_text(&self, ty: &str) -> (r: String)
        ensures
            r@ == method_text(ty@, self.name@, self.variant@, self.ignore_fields@),
    {
        let mut s = String::from_str("pub fn ");
        s.append(self.name.as_str());
        s.append("(&self) -> bool { if let &");
        s.append(ty);
        s.append("::");
        s.append(self.variant.as_str());
        s.append(self.ignore_fields.as_str());
        s.append(" = self { true } else { false } }");
        s
    }
}

/// Whether no two variants share a name.
pub open spec fn distinct_variant_names(variants: Seq<Variant>) -> bool {
    forall|a: int, b: int|
        0 <= a < variants.len() && 0 <= b < variants.len() && a != b ==> variants[a].ident@
            != variants[b].ident@
}

/// Exclusivity: for an `enum` whose variants have distinct names, a value
/// built as one variant makes that variant's method answer true and every
/// other method answer false.
pub proof fn lemma_exactly_one_predicate_holds(
    variants: Seq<Variant>,
    methods: Seq<GeneratedMethod>,
    i: int,
    value: Instance,
)
    requires
        distinct_variant_names(variants),
        methods.len() == variants.len(),
        forall|k: int| 0 <= k < methods.len() ==> generated_for(#[trigger] methods[k], variants[k]),
        0 <= i < variants.len(),
        value.variant@ == variants[i].ident@,
    ensures
        answers(methods[i], value),
        forall|j: int| 0 <= j < methods.len() && j != i ==> !answers(#[trigger] methods[j], value),
{
    assert forall|j: int| 0 <= j < methods.len() && j != i implies !answers(
        #[trigger] methods[j],
        value,
    ) by {
        assert(generated_for(methods[j], variants[j]));
        assert(variants[j].ident@ != variants[i].ident@);
    }
    assert(generated_for(methods[i], variants[i]));
}

/// A method answers on the variant alone: two values built as the same
/// variant get the same answer, whatever their fields hold.
pub proof fn lemma_predicate_ignores_payload(m: GeneratedMethod, a: Instance, b: Instance)
    requires
        a.variant@ == b.variant@,
    ensures
        answers(m, a) == answers(m, b),
{
}

/// Naming is deterministic: equal variant names give equal method names.
pub proof fn lemma_predicate_name_deterministic(a: Seq<char>, b: Seq<char>)
    requires
        a == b,
    ensures
        predicate_name(a) == predicate_name(b),
{
}

} // verus!
