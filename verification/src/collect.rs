//! Classification of a whole declaration, with the faults of all its fields
//! gathered into one list.

use vstd::prelude::*;
use crate::decl::{DeclBody, FieldDescriptor, TypeDeclaration};
use crate::diag::{Diagnostic, DiagnosticView, ErrorKind, FieldError, FieldErrorView, Part,
    found_enum, found_union, make_unnamed_field, unnamed_field};
use crate::field::{Classification, Field, classify, outcome_view, parse_field};
use vstd::string::StringExecFns;

verus! {

/// Whether every field has a name.
pub open spec fn all_named(fields: Seq<FieldDescriptor>) -> bool {
    forall|j: int| 0 <= j < fields.len() ==> (#[trigger] fields[j]).name is Some
}

/// Whether `i` is the position of the first field without a name.
pub open spec fn is_first_unnamed(fields: Seq<FieldDescriptor>, i: int) -> bool {
    &&& 0 <= i < fields.len()
    &&& fields[i].name is None
    &&& forall|j: int| 0 <= j < i ==> (#[trigger] fields[j]).name is Some
}

/// The position of the first field without a name, where there is one.
pub open spec fn first_unnamed(fields: Seq<FieldDescriptor>) -> int {
    choose|i: int| is_first_unnamed(fields, i)
}

/// The fields of a declaration. A declaration that is no record is at fault,
/// and so is a record with a positional field: the fault then stands on the
/// first such field.
pub open spec fn extraction(decl: &TypeDeclaration) -> Result<Seq<FieldDescriptor>, DiagnosticView> {
    match decl.body {
        DeclBody::Enum => Err(DiagnosticView { field: None, error: found_enum() }),
        DeclBody::Union => Err(DiagnosticView { field: None, error: found_union() }),
        DeclBody::Record { fields } => {
            if all_named(fields@) {
                Ok(fields@)
            } else {
                Err(
                    DiagnosticView {
                        field: Some(first_unnamed(fields@)),
                        error: unnamed_field(),
                    },
                )
            }
        },
    }
}

/// The faults among `results`, each with its position, in the order of the
/// positions. Successes are passed over.
pub open spec fn gathered(results: Seq<Result<Classification, FieldErrorView>>) -> Seq<
    DiagnosticView,
>
    decreases results.len(),
{
    if results.len() == 0 {
        Seq::empty()
    } else {
        let before = gathered(results.drop_last());
        match results.last() {
            Err(e) => before.push(
                DiagnosticView { field: Some(results.len() - 1), error: e },
            ),
            Ok(_) => before,
        }
    }
}

/// The classification of each field, at the field's position.
pub open spec fn outcomes(fields: Seq<FieldDescriptor>) -> Seq<
    Result<Classification, FieldErrorView>,
> {
    Seq::new(fields.len(), |i: int| classify(&fields[i]))
}

/// All that is wrong with a declaration: the one fault of extraction, or
/// else the faults of all fields.
pub open spec fn diagnostics(decl: &TypeDeclaration) -> Seq<DiagnosticView> {
    match extraction(decl) {
        Err(d) => seq![d],
        Ok(fields) => gathered(outcomes(fields)),
    }
}

/// The classifications of a faultless declaration, in declaration order.
pub open spec fn classified(decl: &TypeDeclaration) -> Seq<Classification> {
    match extraction(decl) {
        Err(_) => Seq::empty(),
        Ok(fields) => Seq::new(fields.len(), |i: int| classify(&fields[i])->Ok_0),
    }
}

/// Results with their names and messages as character sequences.
pub open spec fn outcome_views(results: Seq<Result<Field, FieldError>>) -> Seq<
    Result<Classification, FieldErrorView>,
> {
    Seq::new(results.len(), |i: int| outcome_view(results[i]))
}

/// Diagnostics with their messages as character sequences.
pub open spec fn diag_views(diags: Seq<Diagnostic>) -> Seq<DiagnosticView> {
    Seq::new(diags.len(), |i: int| diags[i]@)
}

/// Fields with their names as character sequences.
pub open spec fn field_views(fields: Seq<Field>) -> Seq<Classification> {
    Seq::new(fields.len(), |i: int| fields[i]@)
}

/// The fields of a record declaration.
pub fn extract_fields<'a>(decl: &'a TypeDeclaration) -> (r: Result<
    &'a Vec<FieldDescriptor>,
    Diagnostic,
>)
    ensures
        match r {
            Ok(fields) => extraction(decl) == Ok::<Seq<FieldDescriptor>, DiagnosticView>(fields@),
            Err(d) => extraction(decl) == Err::<Seq<FieldDescriptor>, DiagnosticView>(d@),
        },
{
    let fields = match &decl.body {
        DeclBody::Record { fields } => fields,
        DeclBody::Enum => {
            let error = FieldError::new(
                ErrorKind::Structure,
                Part::Declaration,
                String::from_str("Expected Struct found Enum"),
            );
            return Err(Diagnostic { field: None, error });
        },
        DeclBody::Union => {
            let error = FieldError::new(
                ErrorKind::Structure,
                Part::Declaration,
                String::from_str("Expected Struct found Union"),
            );
            return Err(Diagnostic { field: None, error });
        },
    };
    let mut i: usize = 0;
    while i < fields.len()
        invariant
            i <= fields@.len(),
            decl.body == (DeclBody::Record { fields: *fields }),
            forall|j: int| 0 <= j < i ==> (#[trigger] fields@[j]).name is Some,
        decreases fields@.len() - i,
    {
        if fields[i].name.is_none() {
            proof {
                assert(fields@[i as int].name is None);
                assert(!all_named(fields@));
                assert(is_first_unnamed(fields@, i as int));
                let k = first_unnamed(fields@);
                assert(is_first_unnamed(fields@, k));
                assert(k == i) by {
                    if k < i {
                        assert(fields@[k].name is Some);
                    }
                    if i < k {
                        assert(fields@[i as int].name is Some);
                    }
                }
            }
            return Err(Diagnostic { field: Some(i), error: make_unnamed_field() });
        }
        i = i + 1;
    }
    Ok(fields)
}

/// Gathers the faults among `results` into one list, or `None` where there
/// is none: every fault is kept, not only the first.
pub fn combine_errors(results: &Vec<Result<Field, FieldError>>) -> (r: Option<Vec<Diagnostic>>)
    ensures
        match r {
            None => gathered(outcome_views(results@)).len() == 0,
            Some(diags) => diags@.len() > 0 && diag_views(diags@) == gathered(
                outcome_views(results@),
            ),
        },
{
    let ghost views = outcome_views(results@);
    let mut diags: Vec<Diagnostic> = Vec::new();
    let mut i: usize = 0;
    assert(diag_views(diags@) =~= gathered(views.take(0)));
    while i < results.len()
        invariant
            i <= results@.len(),
            views == outcome_views(results@),
            diag_views(diags@) == gathered(views.take(i as int)),
        decreases results@.len() - i,
    {
        let ghost before = diags@;
        proof {
            assert(views.take(i + 1).drop_last() =~= views.take(i as int));
            assert(views.take(i + 1).last() == outcome_view(results@[i as int]));
        }
        match &results[i] {
            Err(e) => {
                diags.push(Diagnostic { field: Some(i), error: e.duplicate() });
                assert(diag_views(diags@) =~= diag_views(before).push(diags@.last()@));
            },
            Ok(_) => {},
        }
        i = i + 1;
    }
    assert(views.take(i as int) =~= views);
    if diags.len() == 0 {
        None
    } else {
        Some(diags)
    }
}

/// A fault at position `i` is among the gathered diagnostics.
pub proof fn lemma_gathered_keeps(results: Seq<Result<Classification, FieldErrorView>>, i: int)
    requires
        0 <= i < results.len(),
        results[i] is Err,
    ensures
        gathered(results).contains(
            DiagnosticView { field: Some(i), error: results[i]->Err_0 },
        ),
    decreases results.len(),
{
    let before = gathered(results.drop_last());
    let wanted = DiagnosticView { field: Some(i), error: results[i]->Err_0 };
    if i == results.len() - 1 {
        assert(gathered(results).last() == wanted);
    } else {
        lemma_gathered_keeps(results.drop_last(), i);
        let k = choose|k: int| 0 <= k < before.len() && before[k] == wanted;
        match results.last() {
            Err(e) => {
                assert(gathered(results)[k] == wanted);
            },
            Ok(_) => {},
        }
    }
}

/// Classifies every field of a declaration. The result is either the
/// classifications of all fields, in declaration order, or the faults of all
/// fields that have one; there is no partial result.
pub fn parse_fields<'a>(decl: &'a TypeDeclaration) -> (r: Result<Vec<Field<'a>>, Vec<Diagnostic>>)
    ensures
        match r {
            Ok(fields) => diagnostics(decl).len() == 0 && field_views(fields@) == classified(decl),
            Err(diags) => diags@.len() > 0 && diag_views(diags@) == diagnostics(decl),
        },
{
    let fields = match extract_fields(decl) {
        Ok(fields) => fields,
        Err(d) => {
            let mut diags: Vec<Diagnostic> = Vec::new();
            diags.push(d);
            assert(diag_views(diags@) =~= seq![d@]);
            return Err(diags);
        },
    };
    let mut results: Vec<Result<Field<'a>, FieldError>> = Vec::new();
    let mut i: usize = 0;
    while i < fields.len()
        invariant
            i <= fields@.len(),
            results@.len() == i,
            forall|k: int| 0 <= k < i ==> outcome_view(#[trigger] results@[k]) == classify(&fields@[k]),
        decreases fields@.len() - i,
    {
        results.push(parse_field(&fields[i]));
        i = i + 1;
    }
    assert(outcome_views(results@) =~= outcomes(fields@));
    if let Some(diags) = combine_errors(&results) {
        return Err(diags);
    }
    let mut found: Vec<Field<'a>> = Vec::new();
    while found.len() < fields.len()
        invariant
            found@.len() <= fields@.len(),
            gathered(outcomes(fields@)).len() == 0,
            forall|k: int|
                0 <= k < found@.len() ==> classify(&fields@[k]) == Ok::<
                    Classification,
                    FieldErrorView,
                >((#[trigger] found@[k])@),
        decreases fields@.len() - found@.len(),
    {
        let at: usize = found.len();
        proof {
            if classify(&fields@[at as int]) is Err {
                lemma_gathered_keeps(outcomes(fields@), at as int);
            }
        }
        match parse_field(&fields[at]) {
            Ok(field) => {
                found.push(field);
            },
            Err(_) => {
                assert(false);
            },
        }
    }
    assert(field_views(found@) =~= classified(decl));
    Ok(found)
}

/// Results without a fault give no diagnostic.
pub proof fn lemma_gathered_none(results: Seq<Result<Classification, FieldErrorView>>)
    requires
        forall|i: int| 0 <= i < results.len() ==> (#[trigger] results[i]) is Ok,
    ensures
        gathered(results).len() == 0,
    decreases results.len(),
{
    if results.len() > 0 {
        lemma_gathered_none(results.drop_last());
    }
}

/// A field at fault is reported: the declaration has a diagnostic, and so
/// no text is emitted for it.
pub proof fn faulty_field_is_reported(decl: &TypeDeclaration, i: int)
    requires
        extraction(decl) is Ok,
        0 <= i < extraction(decl)->Ok_0.len(),
        classify(&extraction(decl)->Ok_0[i]) is Err,
    ensures
        diagnostics(decl).len() > 0,
        diagnostics(decl).contains(
            DiagnosticView {
                field: Some(i),
                error: classify(&extraction(decl)->Ok_0[i])->Err_0,
            },
        ),
{
    lemma_gathered_keeps(outcomes(extraction(decl)->Ok_0), i);
}

/// A declaration without fault is a record, every field of it is
/// classified, and the classifications stand in declaration order: the one
/// at a position carries the name of the field at that position.
pub proof fn classification_keeps_order(decl: &TypeDeclaration, i: int)
    requires
        diagnostics(decl).len() == 0,
        0 <= i < classified(decl).len(),
    ensures
        extraction(decl) is Ok,
        classified(decl).len() == extraction(decl)->Ok_0.len(),
        classify(&extraction(decl)->Ok_0[i]) is Ok,
        extraction(decl)->Ok_0[i].name is Some,
        classified(decl)[i].name() == extraction(decl)->Ok_0[i].name->Some_0@,
{
    let fields = extraction(decl)->Ok_0;
    if classify(&fields[i]) is Err {
        lemma_gathered_keeps(outcomes(fields), i);
    }
}

/// Two fields at fault give two diagnostics, one for each, whatever stands
/// between them: the faults are gathered, not cut off after the first.
pub proof fn two_faults_two_diagnostics(decl: &TypeDeclaration, i: int, j: int)
    requires
        extraction(decl) is Ok,
        0 <= i < j < extraction(decl)->Ok_0.len(),
        classify(&extraction(decl)->Ok_0[i]) is Err,
        classify(&extraction(decl)->Ok_0[j]) is Err,
    ensures
        diagnostics(decl).len() >= 2,
        diagnostics(decl).contains(
            DiagnosticView {
                field: Some(i),
                error: classify(&extraction(decl)->Ok_0[i])->Err_0,
            },
        ),
        diagnostics(decl).contains(
            DiagnosticView {
                field: Some(j),
                error: classify(&extraction(decl)->Ok_0[j])->Err_0,
            },
        ),
{
    let fields = extraction(decl)->Ok_0;
    lemma_gathered_keeps(outcomes(fields), i);
    lemma_gathered_keeps(outcomes(fields), j);
    let all = diagnostics(decl);
    let first = DiagnosticView { field: Some(i), error: classify(&fields[i])->Err_0 };
    let second = DiagnosticView { field: Some(j), error: classify(&fields[j])->Err_0 };
    let a = choose|a: int| 0 <= a < all.len() && all[a] == first;
    let b = choose|b: int| 0 <= b < all.len() && all[b] == second;
    assert(a != b);
}

} // verus!
