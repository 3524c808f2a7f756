//! The header of the generated implementation: the struct's generic
//! parameters with and without their bounds, and its where-clause.

use vstd::prelude::*;
use crate::shape::{generic_params_view, option_text, GenericParam, GenericParamView, GenericsDescriptor, GenericsView};

verus! {

/// The path of the conversion trait that the generated code implements.
pub open spec fn conversion_trait_text() -> Seq<char> {
    "node_bindgen::core::TryIntoJs"@
}

/// A bound clause behind a parameter's name: a colon and the bounds, or
/// nothing.
pub open spec fn bounds_text(bounds: Option<Seq<char>>) -> Seq<char> {
    match bounds {
        Some(b) => ": "@ + b,
        None => Seq::empty(),
    }
}

/// A default behind a parameter: an equals sign and the default, or nothing.
pub open spec fn default_text(default: Option<Seq<char>>) -> Seq<char> {
    match default {
        Some(d) => " = "@ + d,
        None => Seq::empty(),
    }
}

/// One generic parameter as it is declared.
pub open spec fn generic_param_text(param: GenericParamView) -> Seq<char> {
    match param {
        GenericParamView::Type { name, bounds, default } => name + bounds_text(bounds)
            + default_text(default),
        GenericParamView::Lifetime { name, bounds } => name + bounds_text(bounds),
        GenericParamView::Const { name, ty, default } => "const "@ + name + ": "@ + ty
            + default_text(default),
    }
}

/// The parameters in order, separated by a comma and a space.
pub open spec fn generic_list_text(params: Seq<GenericParamView>) -> Seq<char>
    decreases params.len(),
{
    if params.len() == 0 {
        Seq::empty()
    } else if params.len() == 1 {
        generic_param_text(params[0])
    } else {
        generic_list_text(params.drop_last()) + ", "@ + generic_param_text(params.last())
    }
}

/// The parameters between angle brackets, or nothing where there are none.
pub open spec fn angle_list_text(params: Seq<GenericParamView>) -> Seq<char> {
    if params.len() == 0 {
        Seq::empty()
    } else {
        "<"@ + generic_list_text(params) + ">"@
    }
}

/// Every parameter without its bounds, in the same order.
pub open spec fn without_bounds(params: Seq<GenericParamView>) -> Seq<GenericParamView> {
    params.map_values(|p: GenericParamView| p.without_bounds())
}

/// The where-clause behind the header: a space and the clause, or nothing.
pub open spec fn where_text(where_clause: Option<Seq<char>>) -> Seq<char> {
    match where_clause {
        Some(w) => " "@ + w,
        None => Seq::empty(),
    }
}

/// The header of the implementation: the parameters with their bounds
/// behind `impl`, without them behind the struct's name, and the
/// where-clause as it was declared.
pub open spec fn impl_signature_text(name: Seq<char>, generics: GenericsView) -> Seq<char> {
    "impl"@ + angle_list_text(generics.params) + " "@ + conversion_trait_text() + " for "@ + name
        + angle_list_text(without_bounds(generics.params)) + where_text(generics.where_clause)
}

fn clone_option(text: &Option<String>) -> (copy: Option<String>)
    ensures
        option_text(copy) == option_text(*text),
{
    match text {
        Some(s) => Some(s.clone()),
        None => None,
    }
}

/// Strips one parameter of its bounds.
fn drop_bounds(param: &GenericParam) -> (stripped: GenericParam)
    ensures
        stripped@ == param@.without_bounds(),
{
    match param {
        GenericParam::Type { name, bounds: _, default } => GenericParam::Type {
            name: name.clone(),
            bounds: None,
            default: clone_option(default),
        },
        GenericParam::Lifetime { name, bounds: _ } => GenericParam::Lifetime {
            name: name.clone(),
            bounds: None,
        },
        GenericParam::Const { name, ty, default: _ } => GenericParam::Const {
            name: name.clone(),
            ty: ty.clone(),
            default: None,
        },
    }
}

/// Strips every parameter of what may not stand where a type is named: a
/// type parameter loses its trait bounds, a lifetime parameter its lifetime
/// bounds, a const parameter its default. Names, kinds and order stay.
pub fn drop_generic_bounds(params: &[GenericParam]) -> (stripped: Vec<GenericParam>)
    ensures
        generic_params_view(stripped@) == without_bounds(generic_params_view(params@)),
{
    let mut stripped: Vec<GenericParam> = Vec::new();
    let mut i: usize = 0;
    while i < params.len()
        invariant
            i <= params@.len(),
            stripped@.len() == i,
            forall|k: int| 0 <= k < i ==> (#[trigger] stripped@[k])@ == params@[k]@.without_bounds(),
        decreases params@.len() - i,
    {
        stripped.push(drop_bounds(&params[i]));
        i += 1;
    }
    assert(generic_params_view(stripped@) =~= without_bounds(generic_params_view(params@)));
    stripped
}

fn append_bounds(out: &mut String, bounds: &Option<String>)
    ensures
        final(out)@ == old(out)@ + bounds_text(option_text(*bounds)),
{
    match bounds {
        Some(b) => {
            out.append(": ");
            out.append(b.as_str());
        },
        None => {},
    }
}

fn append_default(out: &mut String, default: &Option<String>)
    ensures
        final(out)@ == old(out)@ + default_text(option_text(*default)),
{
    match default {
        Some(d) => {
            out.append(" = ");
            out.append(d.as_str());
        },
        None => {},
    }
}

fn append_generic_param(out: &mut String, param: &GenericParam)
    ensures
        final(out)@ == old(out)@ + generic_param_text(param@),
{
    match param {
        GenericParam::Type { name, bounds, default } => {
            out.append(name.as_str());
            append_bounds(out, bounds);
            append_default(out, default);
        },
        GenericParam::Lifetime { name, bounds } => {
            out.append(name.as_str());
            append_bounds(out, bounds);
        },
        GenericParam::Const { name, ty, default } => {
            out.append("const ");
            out.append(name.as_str());
            out.append(": ");
            out.append(ty.as_str());
            append_default(out, default);
        },
    }
}

fn append_angle_list(out: &mut String, params: &[GenericParam])
    ensures
        final(out)@ == old(out)@ + angle_list_text(generic_params_view(params@)),
{
    if params.len() == 0 {
        return ;
    }
    let ghost views = generic_params_view(params@);
    let mut list = String::new();
    let mut i: usize = 0;
    while i < params.len()
        invariant
            i <= params@.len(),
            views == generic_params_view(params@),
            list@ == generic_list_text(views.take(i as int)),
        decreases params@.len() - i,
    {
        if i > 0 {
            list.append(", ");
        }
        append_generic_param(&mut list, &params[i]);
        proof {
            let upto = views.take(i + 1);
            assert(upto.drop_last() =~= views.take(i as int));
            assert(upto.last() == params@[i as int]@);
        }
        i += 1;
    }
    assert(views.take(i as int) =~= views);
    out.append("<");
    out.append(list.as_str());
    out.append(">");
}

/// Builds the header of the implementation of the conversion trait for the
/// struct `name`: `impl`, the generic parameters with their bounds, the
/// trait, the struct's name with the parameters stripped of their bounds,
/// and the where-clause. A struct without generic parameters gets no angle
/// brackets in either place.
pub fn generate_impl_signature(name: &str, generics: &GenericsDescriptor) -> (signature: String)
    ensures
        signature@ == impl_signature_text(name@, generics@),
{
    let generics_no_bounds = drop_generic_bounds(generics.params.as_slice());
    let mut signature = String::new();
    signature.append("impl");
    append_angle_list(&mut signature, generics.params.as_slice());
    signature.append(" ");
    signature.append("node_bindgen::core::TryIntoJs");
    signature.append(" for ");
    signature.append(name);
    append_angle_list(&mut signature, generics_no_bounds.as_slice());
    match &generics.where_clause {
        Some(where_clause) => {
            signature.append(" ");
            signature.append(where_clause.as_str());
        },
        None => {},
    }
    signature
}

} // verus!
