//! The errors met while generating the high-level IR from the syntax tree.

use std::ops::Range;
use uuid::Uuid;
use vstd::prelude::*;

verus! {

/// The universally unique identifier of a card (`uuid::Uuid`), carried as it is.
#[verifier::external_type_specification]
#[verifier::external_body]
pub struct ExUuid(Uuid);

/// The positions in the source that a node of the syntax tree spans.
pub type Span = Range<usize>;

/// An error met while generating the high-level IR.
#[derive(Debug, PartialEq, Eq)]
pub enum HirGenError {
    ClassExpected { span: Span },
    UnexpectedClass { span: Span },
    UnknownTypeAlias { alias: String, span: Span },
    UnexpectedCard { ident: Uuid },
}

} // verus!
