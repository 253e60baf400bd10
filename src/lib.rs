//! Plans the companion builder of a record declaration and models how that
//! builder behaves once generated.
pub mod decl;
pub mod classify;
pub mod ident;
pub mod plan;
pub mod model;
pub mod laws;
pub mod emit;

use vstd::prelude::*;
use crate::decl::{RecordDecl, Shape};
use crate::emit::{generated_text, render};
use crate::plan::{expand, plan_of, ExpandError, Plan};

verus! {

/// Generates the companion declarations of a record: the source text of its
/// builder, or why the declaration has none.
pub fn derive(decl: &RecordDecl) -> (r: Result<String, ExpandError>)
    ensures
        match decl.shape {
            Shape::Named(_) => r is Ok && exists|p: Plan| plan_of(*decl, p) && r->Ok_0@ == generated_text(p),
            Shape::Tuple | Shape::Unit => r == Err::<String, ExpandError>(ExpandError::UnnamedFields),
            Shape::Enum | Shape::Union => r == Err::<String, ExpandError>(ExpandError::NotAStruct),
        },
{
    match expand(decl) {
        Ok(p) => {
            let s = render(&p);
            Ok(s)
        }
        Err(e) => Err(e),
    }
}

} // verus!
