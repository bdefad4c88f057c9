//! Classification of a single field: repeatable, optional or required.

use vstd::prelude::*;
use crate::annotation::{each_outcome, each_view, parse_each};
use crate::decl::{FieldDescriptor, TypeExpr};
use crate::diag::{FieldError, FieldErrorView, make_not_sequence, make_unnamed_field, not_sequence,
    unnamed_field};
use crate::shape::{extract_wrapped_type, wrapped_type};

verus! {

/// A classified field. It borrows its name and type from the declaration.
#[derive(Debug, PartialEq, Eq)]
pub enum Field<'a> {
    /// A field that must be set before assembly.
    Required { ident: &'a String, ty: &'a TypeExpr },
    /// A field of type `Option<ty>`.
    Optional { ident: &'a String, ty: &'a TypeExpr },
    /// A field of type `Vec<ty>` that is filled one element at a time by the
    /// method `each_ident`.
    Repeatable { ident: &'a String, ty: &'a TypeExpr, each_ident: String },
}

/// A classification with its names as character sequences.
pub enum Classification {
    /// The field `name` of the declared type `ty`.
    Required { name: Seq<char>, ty: TypeExpr },
    /// The field `name` of type `Option<inner>`.
    Optional { name: Seq<char>, inner: TypeExpr },
    /// The field `name` of type `Vec<inner>`, filled by the method `element`.
    Repeatable { name: Seq<char>, inner: TypeExpr, element: Seq<char> },
}

impl<'a> View for Field<'a> {
    type V = Classification;

    open spec fn view(&self) -> Classification {
        match *self {
            Field::Required { ident, ty } => Classification::Required { name: ident@, ty: *ty },
            Field::Optional { ident, ty } => Classification::Optional { name: ident@, inner: *ty },
            Field::Repeatable { ident, ty, each_ident } => Classification::Repeatable {
                name: ident@,
                inner: *ty,
                element: each_ident@,
            },
        }
    }
}

impl Classification {
    /// The field's name.
    pub open spec fn name(self) -> Seq<char> {
        match self {
            Classification::Required { name, .. } => name,
            Classification::Optional { name, .. } => name,
            Classification::Repeatable { name, .. } => name,
        }
    }

    /// The type of one stored value: the declared type of a required
    /// field, the inner type of an optional or repeatable one.
    pub open spec fn stored_type(self) -> TypeExpr {
        match self {
            Classification::Required { ty, .. } => ty,
            Classification::Optional { inner, .. } => inner,
            Classification::Repeatable { inner, .. } => inner,
        }
    }

    /// The type of one stored value, as source text.
    pub open spec fn value_type(self) -> Seq<char> {
        self.stored_type().text@
    }
}

/// The name of the optional-value wrapper.
pub open spec fn optional_wrapper() -> Seq<char> {
    "Option"@
}

/// The name of the sequence wrapper.
pub open spec fn sequence_wrapper() -> Seq<char> {
    "Vec"@
}

/// The first probe. It does not apply to a field without annotation. A field
/// whose first annotation names an element method is repeatable if its type
/// is a sequence wrapper, and at fault otherwise; so is one whose first
/// annotation is malformed, and one without a name.
pub open spec fn repeated_outcome(f: &FieldDescriptor) -> Result<
    Option<Classification>,
    FieldErrorView,
> {
    match f.name {
        None => Err(unnamed_field()),
        Some(name) => match each_outcome(f.annotations@) {
            Err(e) => Err(e),
            Ok(None) => Ok(None),
            Ok(Some(element)) => match wrapped_type(&f.ty, sequence_wrapper()) {
                Some(inner) => Ok(
                    Some(Classification::Repeatable { name: name@, inner: *inner, element }),
                ),
                None => Err(not_sequence(name@)),
            },
        },
    }
}

/// The second probe. It applies to a field whose type is an optional wrapper.
pub open spec fn optional_outcome(f: &FieldDescriptor) -> Result<
    Option<Classification>,
    FieldErrorView,
> {
    match f.name {
        None => Err(unnamed_field()),
        Some(name) => match wrapped_type(&f.ty, optional_wrapper()) {
            Some(inner) => Ok(Some(Classification::Optional { name: name@, inner: *inner })),
            None => Ok(None),
        },
    }
}

/// The fallback. It applies to every field that has a name.
pub open spec fn required_outcome(f: &FieldDescriptor) -> Result<Classification, FieldErrorView> {
    match f.name {
        None => Err(unnamed_field()),
        Some(name) => Ok(Classification::Required { name: name@, ty: f.ty }),
    }
}

/// The classification of a field: the first probe that applies decides, in
/// the order repeatable, optional, required, and the first fault ends it.
pub open spec fn classify(f: &FieldDescriptor) -> Result<Classification, FieldErrorView> {
    match repeated_outcome(f) {
        Err(e) => Err(e),
        Ok(Some(c)) => Ok(c),
        Ok(None) => match optional_outcome(f) {
            Err(e) => Err(e),
            Ok(Some(c)) => Ok(c),
            Ok(None) => required_outcome(f),
        },
    }
}

/// The outcome of a probe, with names as character sequences.
pub open spec fn probe_view(r: Result<Option<Field>, FieldError>) -> Result<
    Option<Classification>,
    FieldErrorView,
> {
    match r {
        Ok(Some(field)) => Ok(Some(field@)),
        Ok(None) => Ok(None),
        Err(e) => Err(e@),
    }
}

/// The outcome of a classification, with names as character sequences.
pub open spec fn outcome_view(r: Result<Field, FieldError>) -> Result<
    Classification,
    FieldErrorView,
> {
    match r {
        Ok(field) => Ok(field@),
        Err(e) => Err(e@),
    }
}

impl<'a> Field<'a> {
    /// The fallback classification.
    pub fn parse_required(field: &'a FieldDescriptor) -> (r: Result<Field<'a>, FieldError>)
        ensures
            outcome_view(r) == required_outcome(field),
    {
        let ident = match &field.name {
            Some(ident) => ident,
            None => {
                return Err(make_unnamed_field());
            },
        };
        Ok(Field::Required { ident, ty: &field.ty })
    }

    /// Probes for an optional field.
    pub fn parse_optional(field: &'a FieldDescriptor) -> (r: Result<Option<Field<'a>>, FieldError>)
        ensures
            probe_view(r) == optional_outcome(field),
    {
        let ident = match &field.name {
            Some(ident) => ident,
            None => {
                return Err(make_unnamed_field());
            },
        };
        match extract_wrapped_type(&field.ty, "Option") {
            Some(inner) => Ok(Some(Field::Optional { ident, ty: inner })),
            None => Ok(None),
        }
    }

    /// Probes for a repeatable field.
    pub fn parse_repeated(field: &'a FieldDescriptor) -> (r: Result<Option<Field<'a>>, FieldError>)
        ensures
            probe_view(r) == repeated_outcome(field),
    {
        let ident = match &field.name {
            Some(ident) => ident,
            None => {
                return Err(make_unnamed_field());
            },
        };
        let parsed = parse_each(&field.annotations);
        assert(each_view(parsed) == each_outcome(field.annotations@));
        let each_ident = match parsed {
            Ok(Some(each_ident)) => each_ident,
            Ok(None) => {
                return Ok(None);
            },
            Err(e) => {
                return Err(e);
            },
        };
        match extract_wrapped_type(&field.ty, "Vec") {
            Some(inner) => Ok(Some(Field::Repeatable { ident, ty: inner, each_ident })),
            None => Err(make_not_sequence(ident)),
        }
    }

    /// The field's name.
    pub fn ident(&self) -> (r: &'a String)
        ensures
            r@ == self@.name(),
    {
        match self {
            Field::Required { ident, .. } => *ident,
            Field::Optional { ident, .. } => *ident,
            Field::Repeatable { ident, .. } => *ident,
        }
    }

    /// The type of one stored value.
    pub fn value_type(&self) -> (r: &'a TypeExpr)
        ensures
            *r == self@.stored_type(),
    {
        match self {
            Field::Required { ty, .. } => *ty,
            Field::Optional { ty, .. } => *ty,
            Field::Repeatable { ty, .. } => *ty,
        }
    }
}

/// Classifies one field.
pub fn parse_field<'a>(field: &'a FieldDescriptor) -> (r: Result<Field<'a>, FieldError>)
    ensures
        outcome_view(r) == classify(field),
{
    match Field::parse_repeated(field) {
        Err(e) => {
            return Err(e);
        },
        Ok(Some(found)) => {
            return Ok(found);
        },
        Ok(None) => {},
    }
    match Field::parse_optional(field) {
        Err(e) => {
            return Err(e);
        },
        Ok(Some(found)) => {
            return Ok(found);
        },
        Ok(None) => {},
    }
    Field::parse_required(field)
}

/// A field whose first annotation names an element method, and whose type is
/// no sequence wrapper, is at fault: it gets no classification.
pub proof fn each_on_other_type_is_fault(f: &FieldDescriptor, name: String, element: Seq<char>)
    requires
        f.name == Some(name),
        each_outcome(f.annotations@) == Ok::<Option<Seq<char>>, FieldErrorView>(Some(element)),
        wrapped_type(&f.ty, sequence_wrapper()) is None,
    ensures
        classify(f) == Err::<Classification, FieldErrorView>(not_sequence(name@)),
{
}

/// Every field that has a name and no annotation is classified, and keeps
/// its name.
pub proof fn unannotated_field_is_classified(f: &FieldDescriptor, name: String)
    requires
        f.name == Some(name),
        f.annotations@.len() == 0,
    ensures
        classify(f) is Ok,
        classify(f)->Ok_0.name() == name@,
        !(classify(f)->Ok_0 is Repeatable),
{
}

} // verus!
