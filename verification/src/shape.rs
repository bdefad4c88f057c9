//! Recognising a single-argument wrapper such as `Option<T>` or `Vec<T>`.

use vstd::prelude::*;
use vstd::string::StringExecFns;
use crate::decl::{GenericArgument, PathArguments, TypeExpr, TypeShape, same_text};

verus! {

/// The inner type of `ty` if `ty` is written as a path without a qualified
/// self type whose first segment is named `wrapper` and carries exactly one
/// argument between angle brackets, that argument being a type.
pub open spec fn wrapped_type(ty: &TypeExpr, wrapper: Seq<char>) -> Option<&TypeExpr> {
    match ty.shape {
        TypeShape::Path { qualified, segments } => {
            if !qualified && segments@.len() > 0 && segments@[0].ident@ == wrapper {
                match segments@[0].arguments {
                    PathArguments::AngleBracketed { args } => {
                        if args@.len() == 1 {
                            match args@[0] {
                                GenericArgument::Type(inner) => Some(&inner),
                                GenericArgument::Other => None,
                            }
                        } else {
                            None
                        }
                    },
                    _ => None,
                }
            } else {
                None
            }
        },
        TypeShape::Other => None,
    }
}

/// Matches `ty` against the wrapper named `wrapper` and hands out the inner
/// type. A type of any other shape is no fault: the answer is `None`.
pub fn extract_wrapped_type<'a>(ty: &'a TypeExpr, wrapper: &str) -> (r: Option<&'a TypeExpr>)
    ensures
        r == wrapped_type(ty, wrapper@),
{
    let segments = match &ty.shape {
        TypeShape::Path { qualified, segments } => {
            if *qualified {
                return None;
            }
            segments
        },
        TypeShape::Other => {
            return None;
        },
    };
    if segments.len() == 0 {
        return None;
    }
    let segment = &segments[0];
    let wanted = String::from_str(wrapper);
    if !same_text(&segment.ident, &wanted) {
        return None;
    }
    let args = match &segment.arguments {
        PathArguments::AngleBracketed { args } => args,
        _ => {
            return None;
        },
    };
    if args.len() != 1 {
        return None;
    }
    match &args[0] {
        GenericArgument::Type(inner) => Some(inner),
        GenericArgument::Other => None,
    }
}

} // verus!
