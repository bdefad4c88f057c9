//! The source text of the builder of a classified record.

use vstd::prelude::*;
use vstd::string::StringExecFns;
use crate::collect::{classified, diag_views, diagnostics, field_views, parse_fields};
use crate::decl::{TypeDeclaration, same_text};
use crate::diag::Diagnostic;
use crate::field::{Classification, Field};

verus! {

/// The pieces of text that are emitted once per field.
#[derive(Debug, Clone, Copy, PartialEq, Eq, Structural)]
pub enum Piece {
    /// The field's storage slot in the builder.
    Slot,
    /// The slot's initial value in the factory.
    Initial,
    /// The field's value in the assembled record.
    Assembly,
    /// The field's setter, or its element method and bulk setter.
    Methods,
}

/// The three parts of the emitted text.
#[derive(Debug, PartialEq, Eq)]
pub struct Artifacts {
    /// The factory: `impl Name { fn builder() -> NameBuilder { .. } }`.
    pub factory: String,
    /// The storage declaration: `struct NameBuilder { .. }`.
    pub storage: String,
    /// The assembly method and the setters: `impl NameBuilder { .. }`.
    pub methods: String,
}

/// The name of the builder of the record `name`.
pub open spec fn builder_name(name: Seq<char>) -> Seq<char> {
    name + "Builder"@
}

/// A slot that may be absent for a required or optional field, a sequence
/// for a repeatable one.
pub open spec fn slot_text(c: Classification) -> Seq<char> {
    match c {
        Classification::Repeatable { name, inner, .. } => name + ": std::vec::Vec<"@ + inner.text@
            + ">"@,
        _ => c.name() + ": std::option::Option<"@ + c.value_type() + ">"@,
    }
}

/// Absent for a required or optional field, empty for a repeatable one.
pub open spec fn initial_text(c: Classification) -> Seq<char> {
    match c {
        Classification::Repeatable { name, .. } => name + ": std::vec::Vec::new()"@,
        _ => c.name() + ": std::option::Option::None"@,
    }
}

/// The message of an assembly that finds the required field `name` unset.
pub open spec fn missing_message(name: Seq<char>) -> Seq<char> {
    "missing required field: "@ + name
}

/// A required field fails the assembly at once where its slot is absent; an
/// optional or repeatable field hands out what its slot holds.
pub open spec fn assembly_text(c: Classification) -> Seq<char> {
    match c {
        Classification::Required { name, .. } => name + ": self."@ + name + ".clone().ok_or(\""@
            + missing_message(name) + "\")?"@,
        _ => c.name() + ": self."@ + c.name() + ".clone()"@,
    }
}

/// The setter of a required or optional field: it stores its argument as
/// present and hands the builder back.
pub open spec fn setter_text(name: Seq<char>, ty: Seq<char>) -> Seq<char> {
    "pub fn "@ + name + "(&mut self, "@ + name + ": "@ + ty + ") -> &mut Self { self."@ + name
        + " = std::option::Option::Some("@ + name + "); self }"@
}

/// The element method of a repeatable field: it appends its argument to the
/// slot and hands the builder back.
pub open spec fn append_text(name: Seq<char>, ty: Seq<char>, element: Seq<char>) -> Seq<char> {
    "pub fn "@ + element + "(&mut self, "@ + element + ": "@ + ty + ") -> &mut Self { self."@
        + name + ".push("@ + element + "); self }"@
}

/// The bulk setter of a repeatable field: it replaces what the slot holds
/// and hands the builder back.
pub open spec fn replace_text(name: Seq<char>, ty: Seq<char>) -> Seq<char> {
    "pub fn "@ + name + "(&mut self, "@ + name + ": std::vec::Vec<"@ + ty
        + ">) -> &mut Self { self."@ + name + " = "@ + name + "; self }"@
}

/// Whether a repeatable field gets a bulk setter beside its element method:
/// it does unless the two would share a name.
pub open spec fn has_bulk_setter(name: Seq<char>, element: Seq<char>) -> bool {
    element != name
}

/// The methods of one field.
pub open spec fn methods_text(c: Classification) -> Seq<char> {
    match c {
        Classification::Repeatable { name, inner, element } => {
            if has_bulk_setter(name, element) {
                append_text(name, inner.text@, element) + " "@ + replace_text(name, inner.text@)
            } else {
                append_text(name, inner.text@, element)
            }
        },
        _ => setter_text(c.name(), c.value_type()),
    }
}

/// One piece of text for one field.
pub open spec fn piece_text(piece: Piece, c: Classification) -> Seq<char> {
    match piece {
        Piece::Slot => slot_text(c),
        Piece::Initial => initial_text(c),
        Piece::Assembly => assembly_text(c),
        Piece::Methods => methods_text(c),
    }
}

/// The separator between the pieces of two fields.
pub open spec fn separator(piece: Piece) -> Seq<char> {
    match piece {
        Piece::Methods => " "@,
        _ => ", "@,
    }
}

/// The pieces of the first `n` fields, in the order of the fields, with the
/// separator between each two.
pub open spec fn joined(piece: Piece, fields: Seq<Classification>, n: nat) -> Seq<char>
    decreases n,
{
    if n == 0 {
        Seq::empty()
    } else if n == 1 {
        piece_text(piece, fields[0])
    } else {
        joined(piece, fields, (n - 1) as nat) + separator(piece) + piece_text(
            piece,
            fields[n - 1],
        )
    }
}

/// The factory of the record `name`.
pub open spec fn factory_text(name: Seq<char>, fields: Seq<Classification>) -> Seq<char> {
    "impl "@ + name + " { fn builder() -> "@ + builder_name(name) + " { "@ + builder_name(name)
        + " { "@ + joined(Piece::Initial, fields, fields.len()) + " } } }"@
}

/// The storage declaration of the builder of the record `name`.
pub open spec fn storage_text(name: Seq<char>, fields: Seq<Classification>) -> Seq<char> {
    "struct "@ + builder_name(name) + " { "@ + joined(Piece::Slot, fields, fields.len()) + " }"@
}

/// The assembly method and the setters of the builder of the record `name`.
pub open spec fn implementation_text(name: Seq<char>, fields: Seq<Classification>) -> Seq<char> {
    "impl "@ + builder_name(name) + " { pub fn build(&mut self) -> std::result::Result<"@ + name
        + ", std::boxed::Box<dyn std::error::Error>> { Ok("@ + name + " { "@ + joined(
        Piece::Assembly,
        fields,
        fields.len(),
    ) + " }) } "@ + joined(Piece::Methods, fields, fields.len()) + " }"@
}

/// The whole emitted text: factory, storage declaration, implementation.
pub open spec fn source_text(name: Seq<char>, fields: Seq<Classification>) -> Seq<char> {
    factory_text(name, fields) + " "@ + storage_text(name, fields) + " "@ + implementation_text(
        name,
        fields,
    )
}

fn emit_builder_name(name: &String) -> (r: String)
    ensures
        r@ == builder_name(name@),
{
    name.clone().concat("Builder")
}

fn emit_slot(field: &Field) -> (r: String)
    ensures
        r@ == slot_text(field@),
{
    let mut out = field.ident().clone();
    match field {
        Field::Repeatable { .. } => {
            out.append(": std::vec::Vec<");
        },
        _ => {
            out.append(": std::option::Option<");
        },
    }
    out.append(field.value_type().text.as_str());
    out.append(">");
    out
}

fn emit_initial(field: &Field) -> (r: String)
    ensures
        r@ == initial_text(field@),
{
    let mut out = field.ident().clone();
    match field {
        Field::Repeatable { .. } => {
            out.append(": std::vec::Vec::new()");
        },
        _ => {
            out.append(": std::option::Option::None");
        },
    }
    out
}

/// The message with which the emitted assembly fails on the unset required
/// field `name`.
pub fn missing_field_message(name: &str) -> (r: String)
    ensures
        r@ == missing_message(name@),
{
    String::from_str("missing required field: ").concat(name)
}

fn emit_assembly(field: &Field) -> (r: String)
    ensures
        r@ == assembly_text(field@),
{
    let name = field.ident().as_str();
    let mut out = field.ident().clone();
    out.append(": self.");
    out.append(name);
    match field {
        Field::Required { .. } => {
            out.append(".clone().ok_or(\"");
            out.append(missing_field_message(name).as_str());
            out.append("\")?");
        },
        _ => {
            out.append(".clone()");
        },
    }
    out
}

fn emit_setter(name: &str, ty: &str) -> (r: String)
    ensures
        r@ == setter_text(name@, ty@),
{
    let mut out = String::from_str("pub fn ");
    out.append(name);
    out.append("(&mut self, ");
    out.append(name);
    out.append(": ");
    out.append(ty);
    out.append(") -> &mut Self { self.");
    out.append(name);
    out.append(" = std::option::Option::Some(");
    out.append(name);
    out.append("); self }");
    out
}

fn emit_append(name: &str, ty: &str, element: &str) -> (r: String)
    ensures
        r@ == append_text(name@, ty@, element@),
{
    let mut out = String::from_str("pub fn ");
    out.append(element);
    out.append("(&mut self, ");
    out.append(element);
    out.append(": ");
    out.append(ty);
    out.append(") -> &mut Self { self.");
    out.append(name);
    out.append(".push(");
    out.append(element);
    out.append("); self }");
    out
}

fn emit_replace(name: &str, ty: &str) -> (r: String)
    ensures
        r@ == replace_text(name@, ty@),
{
    let mut out = String::from_str("pub fn ");
    out.append(name);
    out.append("(&mut self, ");
    out.append(name);
    out.append(": std::vec::Vec<");
    out.append(ty);
    out.append(">) -> &mut Self { self.");
    out.append(name);
    out.append(" = ");
    out.append(name);
    out.append("; self }");
    out
}

fn emit_methods(field: &Field) -> (r: String)
    ensures
        r@ == methods_text(field@),
{
    match field {
        Field::Repeatable { ident, ty, each_ident } => {
            let mut out = emit_append(ident.as_str(), ty.text.as_str(), each_ident.as_str());
            if !same_text(ident, each_ident) {
                out.append(" ");
                out.append(emit_replace(ident.as_str(), ty.text.as_str()).as_str());
            }
            out
        },
        _ => emit_setter(field.ident().as_str(), field.value_type().text.as_str()),
    }
}

/// One piece of text for one field.
pub fn emit_piece(piece: Piece, field: &Field) -> (r: String)
    ensures
        r@ == piece_text(piece, field@),
{
    match piece {
        Piece::Slot => emit_slot(field),
        Piece::Initial => emit_initial(field),
        Piece::Assembly => emit_assembly(field),
        Piece::Methods => emit_methods(field),
    }
}

/// One piece of text for each field, in the order of the fields.
pub fn emit_joined(piece: Piece, fields: &Vec<Field>) -> (r: String)
    ensures
        r@ == joined(piece, field_views(fields@), fields@.len()),
{
    let ghost views = field_views(fields@);
    let mut out = String::new();
    let mut i: usize = 0;
    while i < fields.len()
        invariant
            i <= fields@.len(),
            views == field_views(fields@),
            out@ == joined(piece, views, i as nat),
        decreases fields@.len() - i,
    {
        let ghost before = out@;
        if i > 0 {
            match piece {
                Piece::Methods => {
                    out.append(" ");
                },
                _ => {
                    out.append(", ");
                },
            }
        }
        out.append(emit_piece(piece, &fields[i]).as_str());
        proof {
            assert(views[i as int] == fields@[i as int]@);
            if i == 0 {
                assert(out@ =~= piece_text(piece, views[0]));
            }
        }
        i = i + 1;
    }
    out
}

/// The three parts of the builder's text, for a record and its classified
/// fields.
pub fn emit_artifacts(name: &String, fields: &Vec<Field>) -> (r: Artifacts)
    ensures
        r.factory@ == factory_text(name@, field_views(fields@)),
        r.storage@ == storage_text(name@, field_views(fields@)),
        r.methods@ == implementation_text(name@, field_views(fields@)),
{
    let builder = emit_builder_name(name);
    let mut factory = String::from_str("impl ");
    factory.append(name.as_str());
    factory.append(" { fn builder() -> ");
    factory.append(builder.as_str());
    factory.append(" { ");
    factory.append(builder.as_str());
    factory.append(" { ");
    factory.append(emit_joined(Piece::Initial, fields).as_str());
    factory.append(" } } }");
    let mut storage = String::from_str("struct ");
    storage.append(builder.as_str());
    storage.append(" { ");
    storage.append(emit_joined(Piece::Slot, fields).as_str());
    storage.append(" }");
    let mut methods = String::from_str("impl ");
    methods.append(builder.as_str());
    methods.append(" { pub fn build(&mut self) -> std::result::Result<");
    methods.append(name.as_str());
    methods.append(", std::boxed::Box<dyn std::error::Error>> { Ok(");
    methods.append(name.as_str());
    methods.append(" { ");
    methods.append(emit_joined(Piece::Assembly, fields).as_str());
    methods.append(" }) } ");
    methods.append(emit_joined(Piece::Methods, fields).as_str());
    methods.append(" }");
    Artifacts { factory, storage, methods }
}

/// Classifies the fields of a declaration and emits the parts of its
/// builder. A declaration with any fault gives the list of all its
/// diagnostics and no text.
pub fn expand(decl: &TypeDeclaration) -> (r: Result<Artifacts, Vec<Diagnostic>>)
    ensures
        match r {
            Ok(parts) => {
                &&& diagnostics(decl).len() == 0
                &&& parts.factory@ == factory_text(decl.name@, classified(decl))
                &&& parts.storage@ == storage_text(decl.name@, classified(decl))
                &&& parts.methods@ == implementation_text(decl.name@, classified(decl))
            },
            Err(diags) => diags@.len() > 0 && diag_views(diags@) == diagnostics(decl),
        },
{
    match parse_fields(decl) {
        Ok(fields) => Ok(emit_artifacts(&decl.name, &fields)),
        Err(diags) => Err(diags),
    }
}

/// The source text of the builder of a declaration: the factory, the storage
/// declaration and the implementation, each separated from the next by one
/// space. A declaration with any fault gives the list of all its diagnostics
/// and no text.
pub fn derive_strict_builder(decl: &TypeDeclaration) -> (r: Result<String, Vec<Diagnostic>>)
    ensures
        match r {
            Ok(text) => diagnostics(decl).len() == 0 && text@ == source_text(
                decl.name@,
                classified(decl),
            ),
            Err(diags) => diags@.len() > 0 && diag_views(diags@) == diagnostics(decl),
        },
{
    match expand(decl) {
        Ok(parts) => {
            let mut text = parts.factory;
            text.append(" ");
            text.append(parts.storage.as_str());
            text.append(" ");
            text.append(parts.methods.as_str());
            Ok(text)
        },
        Err(diags) => Err(diags),
    }
}

/// A repeatable field whose element method has the field's own name gets
/// the element method only: no bulk setter is emitted.
pub proof fn shared_name_has_no_bulk_setter(name: Seq<char>, inner: crate::decl::TypeExpr)
    ensures
        !has_bulk_setter(name, name),
        methods_text(Classification::Repeatable { name, inner, element: name }) == append_text(
            name,
            inner.text@,
            name,
        ),
{
}

/// A repeatable field whose element method has another name than the field
/// gets both the element method and the bulk setter.
pub proof fn distinct_name_has_bulk_setter(
    name: Seq<char>,
    inner: crate::decl::TypeExpr,
    element: Seq<char>,
)
    requires
        element != name,
    ensures
        has_bulk_setter(name, element),
        methods_text(Classification::Repeatable { name, inner, element }) == append_text(
            name,
            inner.text@,
            element,
        ) + " "@ + replace_text(name, inner.text@),
{
}

/// The pieces stand in the order of the fields: the text for the first
/// `n + 1` fields is the text for the first `n`, then the separator, then
/// the piece of the field at position `n`.
pub proof fn pieces_follow_field_order(piece: Piece, fields: Seq<Classification>, n: nat)
    requires
        1 <= n < fields.len(),
    ensures
        joined(piece, fields, n + 1) == joined(piece, fields, n) + separator(piece) + piece_text(
            piece,
            fields[n as int],
        ),
{
}

} // verus!
