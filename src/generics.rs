//! Generic parameter lists, and the parts of them that an `impl` needs.

use vstd::prelude::*;
use crate::text::{join, join_strings, strings_view};

verus! {

/// One parameter of a generic parameter list, with its bounds and default
/// written as source text.
#[derive(Clone, Debug)]
pub enum GenericParam {
    /// A lifetime such as `'b: 'a`; `lifetime` holds the apostrophe.
    Lifetime { lifetime: String, bounds: Vec<String> },
    /// A type parameter such as `T: Clone = String`.
    Type { ident: String, bounds: Vec<String>, default: Option<String> },
    /// A const parameter such as `const N: usize = 3`.
    Const { ident: String, ty: String, default: Option<String> },
}

/// A generic parameter list together with its `where` clause.
#[derive(Clone, Debug)]
pub struct Generics {
    /// Whether the definition has the `<` and `>` of a parameter list.
    pub has_angle_brackets: bool,
    pub params: Vec<GenericParam>,
    /// The predicates of the `where` clause, one string each.
    pub where_clause: Option<Vec<String>>,
}

/// Separated components of generic arguments, suitable for use in an `impl`.
#[derive(Clone, Debug)]
pub struct Components {
    /// Generic parameters of the `impl` itself (bounds kept, defaults removed).
    pub impl_params: String,
    /// Generic parameters of the type that we are `impl`ementing (names only).
    pub type_params: String,
    /// The `where` clause, or nothing when it has no predicate.
    pub where_bounds: String,
}

/// The name of a parameter as it stands in a reference to the type.
pub open spec fn param_name(p: GenericParam) -> Seq<char> {
    match p {
        GenericParam::Lifetime { lifetime, .. } => lifetime@,
        GenericParam::Type { ident, .. } => ident@,
        GenericParam::Const { ident, .. } => ident@,
    }
}

/// A bound list after a parameter: nothing, or `: ` and the bounds joined by ` + `.
pub open spec fn bounds_text(bounds: Seq<Seq<char>>) -> Seq<char> {
    if bounds.len() == 0 {
        Seq::empty()
    } else {
        ": "@ + join(bounds, " + "@)
    }
}

/// A parameter as it opens an `impl`: bounds kept, default left out.
pub open spec fn impl_param_text(p: GenericParam) -> Seq<char> {
    match p {
        GenericParam::Lifetime { lifetime, bounds } => lifetime@ + bounds_text(strings_view(bounds@)),
        GenericParam::Type { ident, bounds, .. } => ident@ + bounds_text(strings_view(bounds@)),
        GenericParam::Const { ident, ty, .. } => "const "@ + ident@ + ": "@ + ty@,
    }
}

/// A `where` clause: nothing without predicates, else `where ` and the predicates.
pub open spec fn where_text(preds: Seq<Seq<char>>) -> Seq<char> {
    if preds.len() == 0 {
        Seq::empty()
    } else {
        "where "@ + join(preds, ", "@)
    }
}

/// The predicates of the `where` clause; none where there is no clause.
pub open spec fn where_predicates(g: Generics) -> Seq<Seq<char>> {
    match g.where_clause {
        Some(preds) => strings_view(preds@),
        None => Seq::empty(),
    }
}

/// The parameters as they open an `impl`, separated by commas.
pub open spec fn impl_params_text(g: Generics) -> Seq<char> {
    if g.has_angle_brackets {
        join(g.params@.map_values(|p: GenericParam| impl_param_text(p)), ", "@)
    } else {
        Seq::empty()
    }
}

/// The bare names of the parameters, in order, separated by commas.
pub open spec fn type_params_text(g: Generics) -> Seq<char> {
    if g.has_angle_brackets {
        join(g.params@.map_values(|p: GenericParam| param_name(p)), ", "@)
    } else {
        Seq::empty()
    }
}

/// The `where` clause carried over unchanged.
pub open spec fn where_bounds_text(g: Generics) -> Seq<char> {
    if g.has_angle_brackets {
        where_text(where_predicates(g))
    } else {
        Seq::empty()
    }
}

/// Helper for getting the interesting parts of generics for an `impl`
/// (e.g. without the default values of the generic parameters).
pub trait GenericsExt: Sized {
    /// The parameter list on the left of an `impl`.
    spec fn pruned_impl_params(&self) -> Seq<char>;

    /// The names of the parameters, as the type is referred to.
    spec fn pruned_type_params(&self) -> Seq<char>;

    /// The `where` clause.
    spec fn pruned_where_bounds(&self) -> Seq<char>;

    /// Splits the generics into the three parts of an `impl` header.
    fn into_pruned_components(self) -> (r: Components)
        ensures
            r.impl_params@ == self.pruned_impl_params(),
            r.type_params@ == self.pruned_type_params(),
            r.where_bounds@ == self.pruned_where_bounds(),
    ;
}

/// Writes `bounds_text` of the given bounds.
fn bounds_string(bounds: &Vec<String>) -> (r: String)
    ensures
        r@ == bounds_text(strings_view(bounds@)),
{
    if bounds.len() == 0 {
        String::new()
    } else {
        let mut s = String::from_str(": ");
        let joined = join_strings(bounds, " + ");
        s.append(joined.as_str());
        s
    }
}

/// Writes a parameter as it opens an `impl`.
pub fn impl_param_string(p: &GenericParam) -> (r: String)
    ensures
        r@ == impl_param_text(*p),
{
    match p {
        GenericParam::Lifetime { lifetime, bounds } => {
            let mut s = lifetime.clone();
            let b = bounds_string(bounds);
            s.append(b.as_str());
            s
        },
        GenericParam::Type { ident, bounds, .. } => {
            let mut s = ident.clone();
            let b = bounds_string(bounds);
            s.append(b.as_str());
            s
        },
        GenericParam::Const { ident, ty, .. } => {
            let mut s = String::from_str("const ");
            s.append(ident.as_str());
            s.append(": ");
            s.append(ty.as_str());
            s
        },
    }
}

/// Writes the bare name of a parameter.
pub fn param_name_string(p: &GenericParam) -> (r: String)
    ensures
        r@ == param_name(*p),
{
    match p {
        GenericParam::Lifetime { lifetime, .. } => lifetime.clone(),
        GenericParam::Type { ident, .. } => ident.clone(),
        GenericParam::Const { ident, .. } => ident.clone(),
    }
}

/// Writes a `where` clause from its predicates.
fn where_string(preds: &Option<Vec<String>>) -> (r: String)
    ensures
        r@ == where_text(
            match preds {
                Some(p) => strings_view(p@),
                None => Seq::empty(),
            },
        ),
{
    match preds {
        Some(p) => {
            if p.len() == 0 {
                String::new()
            } else {
                let mut s = String::from_str("where ");
                let joined = join_strings(p, ", ");
                s.append(joined.as_str());
                s
            }
        },
        None => String::new(),
    }
}

impl GenericsExt for Generics {
    open spec fn pruned_impl_params(&self) -> Seq<char> {
        impl_params_text(*self)
    }

    open spec fn pruned_type_params(&self) -> Seq<char> {
        type_params_text(*self)
    }

    open spec fn pruned_where_bounds(&self) -> Seq<char> {
        where_bounds_text(*self)
    }

    fn into_pruned_components(self) -> (r: Components) {
        if !self.has_angle_brackets {
            return Components {
                impl_params: String::new(),
                type_params: String::new(),
                where_bounds: String::new(),
            };
        }
        let mut names: Vec<String> = Vec::new();
        let mut sans_defaults: Vec<String> = Vec::new();
        let mut i: usize = 0;
        while i < self.params.len()
            invariant
                i <= self.params.len(),
                names.len() == i,
                sans_defaults.len() == i,
                forall|k: int| 0 <= k < i ==> #[trigger] names@[k]@ == param_name(self.params@[k]),
                forall|k: int|
                    0 <= k < i ==> #[trigger] sans_defaults@[k]@ == impl_param_text(self.params@[k]),
            decreases self.params.len() - i,
        {
            names.push(param_name_string(&self.params[i]));
            sans_defaults.push(impl_param_string(&self.params[i]));
            i = i + 1;
        }
        assert(strings_view(names@) =~= self.params@.map_values(|p: GenericParam| param_name(p)));
        assert(strings_view(sans_defaults@) =~= self.params@.map_values(
            |p: GenericParam| impl_param_text(p),
        ));
        Components {
            impl_params: join_strings(&sans_defaults, ", "),
            type_params: join_strings(&names, ", "),
            where_bounds: where_string(&self.where_clause),
        }
    }
}

/// A type without a parameter list gets an `impl` header with no
/// parameters, no type arguments and no `where` clause.
pub proof fn lemma_no_generics_no_components(g: Generics)
    requires
        !g.has_angle_brackets,
    ensures
        g.pruned_impl_params() == Seq::<char>::empty(),
        g.pruned_type_params() == Seq::<char>::empty(),
        g.pruned_where_bounds() == Seq::<char>::empty(),
{
}

} // verus!
