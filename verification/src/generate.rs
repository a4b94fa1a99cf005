//! Generation from a declaration of any kind.

use crate::fields::{generate_fields_helper, record_text};
use crate::methods::{generate_methods_helper, method_block_text};
use crate::model::{DeclarationModel, DeclarationModelView};
use crate::variants::{generate_variants_helper, union_text};
use vstd::prelude::*;

verus! {

/// What is generated for a declaration: for a record its fields helper, for
/// a tagged union its variants helper and its value-recovery routine, for a
/// method block its methods helper.
pub open spec fn declaration_text(declaration: DeclarationModelView) -> Seq<char> {
    match declaration {
        DeclarationModelView::Record(record) => record_text(record),
        DeclarationModelView::TaggedUnion(union) => union_text(union),
        DeclarationModelView::MethodBlock(block) => method_block_text(block),
    }
}

/// Generates the bindings of a declaration.
pub fn generate(declaration: &DeclarationModel) -> (r: String)
    ensures
        r@ == declaration_text(declaration.deep_view()),
{
    match declaration {
        DeclarationModel::Record(record) => generate_fields_helper(record),
        DeclarationModel::TaggedUnion(union) => generate_variants_helper(union),
        DeclarationModel::MethodBlock(block) => generate_methods_helper(block),
    }
}

} // verus!
