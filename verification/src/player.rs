//! A sample record and its declaration.

use vstd::prelude::*;
use vstd::string::StringExecFns;
use crate::annotation::each_annotation_reads_back;
use crate::collect::{all_named, classified, diagnostics, extraction, lemma_gathered_none, outcomes};
use crate::decl::{DeclBody, FieldDescriptor, TypeDeclaration, TypeExpr, is_each, is_plain,
    is_wrapper};
use crate::field::{Classification, classify};

verus! {

/// A sample record with required and repeatable fields.
#[derive(Debug, PartialEq, Eq)]
pub struct Player {
    pub name: String,
    pub age: u8,
    pub friends: Vec<String>,
    pub siblings: Vec<String>,
    pub swimming: bool,
    pub running: bool,
}

/// Whether `f` is the field `name` of the plain type `ty`, without
/// annotation.
pub open spec fn is_plain_field(f: &FieldDescriptor, name: Seq<char>, ty: Seq<char>) -> bool {
    &&& f.name matches Some(n) && n@ == name
    &&& is_plain(&f.ty, ty)
    &&& f.annotations@.len() == 0
}

/// Whether `f` is the field `name` of type `Vec<String>` whose element
/// method is `element`.
pub open spec fn is_names_field(f: &FieldDescriptor, name: Seq<char>, element: Seq<char>) -> bool {
    &&& f.name matches Some(n) && n@ == name
    &&& exists|inner: TypeExpr| is_plain(&inner, "String"@) && is_wrapper(&f.ty, "Vec"@, inner)
    &&& f.annotations@.len() == 1
    &&& is_each(&f.annotations@[0], element)
}

/// Whether `c` is the required field `name`.
pub open spec fn is_required(c: Classification, name: Seq<char>) -> bool {
    c matches Classification::Required { name: n, .. } && n == name
}

/// Whether `c` is the repeatable field `name` of `String` elements whose
/// element method is `element`.
pub open spec fn is_repeatable(c: Classification, name: Seq<char>, element: Seq<char>) -> bool {
    &&& c matches Classification::Repeatable { name: n, inner, element: e }
    &&& n == name
    &&& e == element
    &&& is_plain(&inner, "String"@)
}

impl Player {
    /// The declaration of `Player`: `friends` is filled by the element
    /// method `friend`, and `siblings` by an element method of its own name.
    pub fn declaration() -> (r: TypeDeclaration)
        ensures
            r.name@ == "Player"@,
            r.body matches DeclBody::Record { fields } && {
                &&& fields@.len() == 6
                &&& is_plain_field(&fields@[0], "name"@, "String"@)
                &&& is_plain_field(&fields@[1], "age"@, "u8"@)
                &&& is_names_field(&fields@[2], "friends"@, "friend"@)
                &&& is_names_field(&fields@[3], "siblings"@, "siblings"@)
                &&& is_plain_field(&fields@[4], "swimming"@, "bool"@)
                &&& is_plain_field(&fields@[5], "running"@, "bool"@)
            },
            diagnostics(&r).len() == 0,
            classified(&r).len() == 6,
            is_required(classified(&r)[0], "name"@),
            is_required(classified(&r)[1], "age"@),
            is_repeatable(classified(&r)[2], "friends"@, "friend"@),
            is_repeatable(classified(&r)[3], "siblings"@, "siblings"@),
            is_required(classified(&r)[4], "swimming"@),
            is_required(classified(&r)[5], "running"@),
    {
        let mut fields: Vec<FieldDescriptor> = Vec::new();
        fields.push(FieldDescriptor::named("name", TypeExpr::plain("String")));
        fields.push(FieldDescriptor::named("age", TypeExpr::plain("u8")));
        fields.push(
            FieldDescriptor::repeated(
                "friends",
                TypeExpr::wrapper("Vec", TypeExpr::plain("String")),
                "friend",
            ),
        );
        fields.push(
            FieldDescriptor::repeated(
                "siblings",
                TypeExpr::wrapper("Vec", TypeExpr::plain("String")),
                "siblings",
            ),
        );
        fields.push(FieldDescriptor::named("swimming", TypeExpr::plain("bool")));
        fields.push(FieldDescriptor::named("running", TypeExpr::plain("bool")));
        let decl = TypeDeclaration {
            name: String::from_str("Player"),
            body: DeclBody::Record { fields },
        };
        proof {
            let all = decl.body->fields@;
            reveal_strlit("friend");
            reveal_strlit("siblings");
            each_annotation_reads_back(all[2].annotations@, "friend"@);
            each_annotation_reads_back(all[3].annotations@, "siblings"@);
            assert(all_named(all));
            assert(extraction(&decl) == Ok::<Seq<FieldDescriptor>, crate::diag::DiagnosticView>(all));
            assert(classify(&all[0]) is Ok);
            assert(classify(&all[1]) is Ok);
            assert(classify(&all[2]) is Ok);
            assert(classify(&all[3]) is Ok);
            assert(classify(&all[4]) is Ok);
            assert(classify(&all[5]) is Ok);
            lemma_gathered_none(outcomes(all));
        }
        decl
    }
}

} // verus!
