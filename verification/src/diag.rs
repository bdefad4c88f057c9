//! Faults found while reading a declaration, and how they are gathered.

use vstd::prelude::*;
use vstd::string::StringExecFns;

verus! {

/// The family a fault belongs to.
#[derive(Debug, Clone, Copy, PartialEq, Eq, Structural)]
pub enum ErrorKind {
    /// The declaration is no record, or a field has no name.
    Structure,
    /// An annotation is present but is not `builder(each = "...")`.
    Annotation,
    /// An `each` annotation stands on a field whose type is no sequence wrapper.
    Shape,
}

/// The part of the source that a fault points at.
#[derive(Debug, Clone, Copy, PartialEq, Eq, Structural)]
pub enum Part {
    /// The declaration as a whole.
    Declaration,
    /// The field as a whole.
    Field,
    /// The field's first annotation, brackets included.
    Attribute,
    /// What stands inside the brackets of the field's first annotation.
    Arguments,
}

/// A fault of one field, or of the declaration itself.
#[derive(Debug, PartialEq, Eq)]
pub struct FieldError {
    pub kind: ErrorKind,
    pub part: Part,
    pub message: String,
}

/// A fault with its message as a sequence of characters.
pub struct FieldErrorView {
    pub kind: ErrorKind,
    pub part: Part,
    pub message: Seq<char>,
}

impl View for FieldError {
    type V = FieldErrorView;

    open spec fn view(&self) -> FieldErrorView {
        FieldErrorView { kind: self.kind, part: self.part, message: self.message@ }
    }
}

/// A fault together with the field it was found on.
#[derive(Debug, PartialEq, Eq)]
pub struct Diagnostic {
    /// The field's position in the declaration; `None` for a fault of the
    /// declaration itself.
    pub field: Option<usize>,
    pub error: FieldError,
}

/// A diagnostic with its message as a sequence of characters.
pub struct DiagnosticView {
    pub field: Option<int>,
    pub error: FieldErrorView,
}

impl View for Diagnostic {
    type V = DiagnosticView;

    open spec fn view(&self) -> DiagnosticView {
        DiagnosticView {
            field: match self.field {
                Some(i) => Some(i as int),
                None => None,
            },
            error: self.error@,
        }
    }
}

impl FieldError {
    /// A fault of the given kind at the given part.
    pub fn new(kind: ErrorKind, part: Part, message: String) -> (r: FieldError)
        ensures
            r@ == (FieldErrorView { kind, part, message: message@ }),
    {
        FieldError { kind, part, message }
    }

    /// A copy of this fault.
    pub fn duplicate(&self) -> (r: FieldError)
        ensures
            r@ == self@,
    {
        FieldError { kind: self.kind, part: self.part, message: self.message.clone() }
    }
}

/// The fault of a positional field.
pub open spec fn unnamed_field() -> FieldErrorView {
    FieldErrorView {
        kind: ErrorKind::Structure,
        part: Part::Field,
        message: "Expected named field"@,
    }
}

/// The fault of a first annotation that is not `builder(...)`.
pub open spec fn not_builder(part: Part) -> FieldErrorView {
    FieldErrorView {
        kind: ErrorKind::Annotation,
        part,
        message: "expected #[builder(...)] attribute"@,
    }
}

/// The fault of a `builder(...)` annotation whose arguments are not
/// `each = "..."`.
pub open spec fn malformed_each() -> FieldErrorView {
    FieldErrorView {
        kind: ErrorKind::Annotation,
        part: Part::Arguments,
        message: "expected builder(each = \"...\")"@,
    }
}

/// The fault of an `each` annotation on the field `name` whose type is no
/// sequence wrapper.
pub open spec fn not_sequence(name: Seq<char>) -> FieldErrorView {
    FieldErrorView {
        kind: ErrorKind::Shape,
        part: Part::Field,
        message: "expected sequence wrapper for repeated field "@ + name,
    }
}

/// The fault of a declaration that is a tagged union.
pub open spec fn found_enum() -> FieldErrorView {
    FieldErrorView {
        kind: ErrorKind::Structure,
        part: Part::Declaration,
        message: "Expected Struct found Enum"@,
    }
}

/// The fault of a declaration that is an overlapping-storage composite.
pub open spec fn found_union() -> FieldErrorView {
    FieldErrorView {
        kind: ErrorKind::Structure,
        part: Part::Declaration,
        message: "Expected Struct found Union"@,
    }
}

/// Makes the fault of a positional field.
pub fn make_unnamed_field() -> (r: FieldError)
    ensures
        r@ == unnamed_field(),
{
    FieldError::new(ErrorKind::Structure, Part::Field, String::from_str("Expected named field"))
}

/// Makes the fault of a first annotation that is not `builder(...)`,
/// pointing at `part`.
pub fn make_not_builder(part: Part) -> (r: FieldError)
    ensures
        r@ == not_builder(part),
{
    FieldError::new(
        ErrorKind::Annotation,
        part,
        String::from_str("expected #[builder(...)] attribute"),
    )
}

/// Makes the fault of arguments that are not `each = "..."`.
pub fn make_malformed_each() -> (r: FieldError)
    ensures
        r@ == malformed_each(),
{
    FieldError::new(
        ErrorKind::Annotation,
        Part::Arguments,
        String::from_str("expected builder(each = \"...\")"),
    )
}

/// Makes the fault of an `each` annotation on the field `name`, whose type
/// is no sequence wrapper.
pub fn make_not_sequence(name: &String) -> (r: FieldError)
    ensures
        r@ == not_sequence(name@),
{
    let message = String::from_str("expected sequence wrapper for repeated field ").concat(
        name.as_str(),
    );
    FieldError::new(ErrorKind::Shape, Part::Field, message)
}

} // verus!
