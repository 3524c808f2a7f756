//! The normalized shape of a struct declaration, as the generators consume
//! it, and the mathematical view of each of its parts.

use vstd::prelude::*;
use crate::casing::{admits_camel_case, camel_case_admits};

verus! {

/// How a field holds its data.
#[derive(Clone, Copy, Debug, PartialEq, Eq, Structural)]
pub enum FieldTypeKind {
    /// The field's type owns its data: the field is moved out of `self`.
    ByValue,
    /// The field's type is a borrowed reference: the field is cloned before
    /// it is converted, since the conversion consumes what it is given.
    ByReference,
}

/// A field of a struct with named fields.
#[derive(Clone, Debug, PartialEq, Eq)]
pub struct NamedField {
    pub name: String,
    pub kind: FieldTypeKind,
}

/// A generic parameter of the struct, each part kept as the text the
/// declaration gave it.
#[derive(Clone, Debug, PartialEq, Eq)]
pub enum GenericParam {
    /// `name: bounds = default`
    Type { name: String, bounds: Option<String>, default: Option<String> },
    /// `name: bounds`, the apostrophe being part of `name`
    Lifetime { name: String, bounds: Option<String> },
    /// `const name: ty = default`
    Const { name: String, ty: String, default: Option<String> },
}

/// The generic parameters of the struct, in declaration order, and its
/// where-clause (the keyword `where` included), if it has one.
#[derive(Clone, Debug, PartialEq, Eq)]
pub struct GenericsDescriptor {
    pub params: Vec<GenericParam>,
    pub where_clause: Option<String>,
}

/// The field layout and generics of a struct.
#[derive(Clone, Debug, PartialEq, Eq)]
#[allow(inconsistent_fields)]
pub enum ShapeDescriptor {
    /// A struct whose fields are accessed by identifier.
    Named { name: String, fields: Vec<NamedField>, generics: GenericsDescriptor },
    /// A struct whose fields are accessed by position.
    Unnamed { name: String, fields: Vec<FieldTypeKind>, generics: GenericsDescriptor },
}

/// Why a declaration has no shape that a conversion can be generated for.
#[derive(Clone, Debug, PartialEq, Eq)]
pub struct ClassificationError {
    pub message: String,
}

/// View of a [`NamedField`].
pub struct NamedFieldView {
    pub name: Seq<char>,
    pub kind: FieldTypeKind,
}

/// View of a [`GenericParam`].
pub enum GenericParamView {
    Type { name: Seq<char>, bounds: Option<Seq<char>>, default: Option<Seq<char>> },
    Lifetime { name: Seq<char>, bounds: Option<Seq<char>> },
    Const { name: Seq<char>, ty: Seq<char>, default: Option<Seq<char>> },
}

/// View of a [`GenericsDescriptor`].
pub struct GenericsView {
    pub params: Seq<GenericParamView>,
    pub where_clause: Option<Seq<char>>,
}

/// View of a [`ShapeDescriptor`].
#[allow(inconsistent_fields)]
pub enum ShapeView {
    Named { name: Seq<char>, fields: Seq<NamedFieldView>, generics: GenericsView },
    Unnamed { name: Seq<char>, fields: Seq<FieldTypeKind>, generics: GenericsView },
}

/// The text held by an optional string.
pub open spec fn option_text(text: Option<String>) -> Option<Seq<char>> {
    match text {
        Some(s) => Some(s@),
        None => None,
    }
}

/// The views of a sequence of named fields, in the same order.
pub open spec fn named_fields_view(fields: Seq<NamedField>) -> Seq<NamedFieldView> {
    fields.map_values(|f: NamedField| f@)
}

/// The views of a sequence of generic parameters, in the same order.
pub open spec fn generic_params_view(params: Seq<GenericParam>) -> Seq<GenericParamView> {
    params.map_values(|p: GenericParam| p@)
}

impl View for NamedField {
    type V = NamedFieldView;

    open spec fn view(&self) -> NamedFieldView {
        NamedFieldView { name: self.name@, kind: self.kind }
    }
}

impl View for GenericParam {
    type V = GenericParamView;

    open spec fn view(&self) -> GenericParamView {
        match *self {
            GenericParam::Type { name, bounds, default } => GenericParamView::Type {
                name: name@,
                bounds: option_text(bounds),
                default: option_text(default),
            },
            GenericParam::Lifetime { name, bounds } => GenericParamView::Lifetime {
                name: name@,
                bounds: option_text(bounds),
            },
            GenericParam::Const { name, ty, default } => GenericParamView::Const {
                name: name@,
                ty: ty@,
                default: option_text(default),
            },
        }
    }
}

impl View for GenericsDescriptor {
    type V = GenericsView;

    open spec fn view(&self) -> GenericsView {
        GenericsView {
            params: generic_params_view(self.params@),
            where_clause: option_text(self.where_clause),
        }
    }
}

impl View for ShapeDescriptor {
    type V = ShapeView;

    open spec fn view(&self) -> ShapeView {
        match *self {
            ShapeDescriptor::Named { name, fields, generics } => ShapeView::Named {
                name: name@,
                fields: named_fields_view(fields@),
                generics: generics@,
            },
            ShapeDescriptor::Unnamed { name, fields, generics } => ShapeView::Unnamed {
                name: name@,
                fields: fields@,
                generics: generics@,
            },
        }
    }
}

impl GenericParamView {
    /// The parameter as it may stand where a type is named: a type or
    /// lifetime parameter loses its bounds, a const parameter its default.
    pub open spec fn without_bounds(self) -> GenericParamView {
        match self {
            GenericParamView::Type { name, bounds, default } => GenericParamView::Type {
                name,
                bounds: None,
                default,
            },
            GenericParamView::Lifetime { name, bounds } => GenericParamView::Lifetime {
                name,
                bounds: None,
            },
            GenericParamView::Const { name, ty, default } => GenericParamView::Const {
                name,
                ty,
                default: None,
            },
        }
    }
}

/// Whether every field's name is short enough to be converted to camel
/// case.
pub open spec fn names_admitted(fields: Seq<NamedFieldView>) -> bool {
    forall|i: int| 0 <= i < fields.len() ==> camel_case_admits(#[trigger] fields[i].name)
}

impl ShapeView {
    /// Whether a conversion can be generated for the shape on this machine:
    /// the names of its named fields are short enough to be converted to
    /// camel case.
    pub open spec fn within_limits(self) -> bool {
        match self {
            ShapeView::Named { name, fields, generics } => names_admitted(fields),
            ShapeView::Unnamed { name, fields, generics } => true,
        }
    }
}

fn admits_names(fields: &[NamedField]) -> (admitted: bool)
    ensures
        admitted == names_admitted(named_fields_view(fields@)),
{
    let ghost views = named_fields_view(fields@);
    let mut i: usize = 0;
    while i < fields.len()
        invariant
            i <= fields@.len(),
            views == named_fields_view(fields@),
            forall|k: int| 0 <= k < i ==> camel_case_admits(#[trigger] views[k].name),
        decreases fields@.len() - i,
    {
        if !admits_camel_case(fields[i].name.as_str()) {
            assert(!camel_case_admits(views[i as int].name));
            return false;
        }
        i += 1;
    }
    true
}

impl ShapeDescriptor {
    /// Tells whether a conversion can be generated for the shape on this
    /// machine.
    pub fn within_limits(&self) -> (fits: bool)
        ensures
            fits == self@.within_limits(),
    {
        match self {
            ShapeDescriptor::Named { name: _, fields, generics: _ } => admits_names(
                fields.as_slice(),
            ),
            ShapeDescriptor::Unnamed { name: _, fields: _, generics: _ } => true,
        }
    }
}

} // verus!
