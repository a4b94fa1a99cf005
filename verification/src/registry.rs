//! The record of which helper routines have been generated for which type.
//!
//! A registration unit calls helper routines by name. [`crate::assembly`]
//! takes it on trust that they exist. An assembly that wants to know asks a
//! registry: each extraction records its helper there, and
//! [`assemble_checked`] fails if a helper that is asked for was never
//! recorded for the target type.

use crate::assembly::{assemble, unit_of, BindingSelection, BindingSelectionView, RegistrationUnit};
use crate::model::{
    produced, DeclarationModel, DeclarationModelView, GenError, GenErrorView, Helper,
};
use vstd::prelude::*;

verus! {

/// One helper routine that has been generated for a type.
#[derive(Clone, Debug, PartialEq, Eq)]
pub struct GeneratedHelper {
    pub target_type: String,
    pub helper: Helper,
}

impl DeepView for GeneratedHelper {
    type V = (Seq<char>, Helper);

    open spec fn deep_view(&self) -> (Seq<char>, Helper) {
        (self.target_type@, self.helper)
    }
}

/// The helper routines generated so far.
#[derive(Clone, Debug, PartialEq, Eq)]
pub struct HelperRegistry {
    pub generated: Vec<GeneratedHelper>,
}

impl View for HelperRegistry {
    type V = Set<(Seq<char>, Helper)>;

    /// The pairs of a type and a helper generated for it.
    open spec fn view(&self) -> Set<(Seq<char>, Helper)> {
        self.generated.deep_view().to_set()
    }
}

/// The type that a declaration attaches its helper to, and which helper that
/// is.
pub open spec fn helper_of(declaration: DeclarationModelView) -> (Seq<char>, Helper) {
    match declaration {
        DeclarationModelView::Record(record) => (record.name, Helper::Fields),
        DeclarationModelView::TaggedUnion(union) => (union.name, Helper::Variants),
        DeclarationModelView::MethodBlock(block) => (block.owner_name, Helper::Methods),
    }
}

/// The first helper, in the order fields, methods, variants, that the
/// selection asks for and that is not available for its target type.
pub open spec fn first_missing(
    available: Set<(Seq<char>, Helper)>,
    selection: BindingSelectionView,
) -> Option<Helper> {
    if selection.requested.contains(Helper::Fields) && !available.contains(
        (selection.target_type, Helper::Fields),
    ) {
        Some(Helper::Fields)
    } else if selection.requested.contains(Helper::Methods) && !available.contains(
        (selection.target_type, Helper::Methods),
    ) {
        Some(Helper::Methods)
    } else if selection.requested.contains(Helper::Variants) && !available.contains(
        (selection.target_type, Helper::Variants),
    ) {
        Some(Helper::Variants)
    } else {
        None
    }
}

/// The unit of a selection if every helper it asks for is available for its
/// target type, or the failure that names the first one that is not.
pub open spec fn checked_unit_of(
    available: Set<(Seq<char>, Helper)>,
    selection: BindingSelectionView,
) -> Result<crate::assembly::RegistrationUnitView, GenErrorView> {
    match first_missing(available, selection) {
        Some(helper) => Err(
            GenErrorView::MissingHelper { target_type: selection.target_type, helper },
        ),
        None => Ok(unit_of(selection)),
    }
}

impl HelperRegistry {
    /// A registry in which nothing is recorded.
    pub fn new() -> (r: HelperRegistry)
        ensures
            r@ == Set::<(Seq<char>, Helper)>::empty(),
    {
        let r = HelperRegistry { generated: Vec::new() };
        r
    }

    /// Records that `helper` has been generated for `target_type`.
    pub fn record(&mut self, target_type: &str, helper: Helper)
        ensures
            final(self)@ == old(self)@.insert((target_type@, helper)),
    {
        let ghost before = self.generated.deep_view();
        let entry = GeneratedHelper { target_type: String::from_str(target_type), helper };
        self.generated.push(entry);
        proof {
            assert(self.generated.deep_view() =~= before.push((target_type@, helper)));
            before.lemma_push_to_set_commute((target_type@, helper));
        }
    }

    /// Records the helper that is generated for a declaration.
    pub fn record_declaration(&mut self, declaration: &DeclarationModel)
        ensures
            final(self)@ == old(self)@.insert(helper_of(declaration.deep_view())),
    {
        match declaration {
            DeclarationModel::Record(record) => self.record(record.name.as_str(), Helper::Fields),
            DeclarationModel::TaggedUnion(union) => self.record(
                union.name.as_str(),
                Helper::Variants,
            ),
            DeclarationModel::MethodBlock(block) => self.record(
                block.owner_name.as_str(),
                Helper::Methods,
            ),
        }
    }

    /// Whether `helper` has been recorded for `target_type`.
    pub fn has(&self, target_type: &str, helper: Helper) -> (r: bool)
        ensures
            r == self@.contains((target_type@, helper)),
    {
        let wanted = String::from_str(target_type);
        let ghost all = self.generated.deep_view();
        let mut i: usize = 0;
        while i < self.generated.len()
            invariant
                i <= self.generated.len(),
                all == self.generated.deep_view(),
                wanted@ == target_type@,
                forall|k: int| 0 <= k < i ==> all[k] != (target_type@, helper),
            decreases self.generated.len() - i,
        {
            let entry = &self.generated[i];
            if entry.helper == helper && entry.target_type == wanted {
                assert(all[i as int] == (target_type@, helper));
                return true;
            }
            i += 1;
        }
        false
    }
}

/// Assembles the unit of a selection after checking that every helper it
/// asks for has been recorded for its target type.
pub fn assemble_checked(registry: &HelperRegistry, selection: &BindingSelection) -> (r: Result<
    RegistrationUnit,
    GenError,
>)
    ensures
        produced(r) == checked_unit_of(registry@, selection.deep_view()),
{
    let target = selection.target_type.as_str();
    if selection.fields && !registry.has(target, Helper::Fields) {
        Err(GenError::MissingHelper { target_type: selection.target_type.clone(), helper: Helper::Fields })
    } else if selection.methods && !registry.has(target, Helper::Methods) {
        Err(GenError::MissingHelper { target_type: selection.target_type.clone(), helper: Helper::Methods })
    } else if selection.variants && !registry.has(target, Helper::Variants) {
        Err(GenError::MissingHelper { target_type: selection.target_type.clone(), helper: Helper::Variants })
    } else {
        Ok(assemble(selection))
    }
}

/// A checked assembly succeeds if and only if every helper that the
/// selection asks for is available for its target type, and then gives the
/// unit that an unchecked assembly gives.
pub proof fn checked_iff_available(
    available: Set<(Seq<char>, Helper)>,
    selection: BindingSelectionView,
)
    ensures
        checked_unit_of(available, selection) is Ok <==> forall|helper: Helper|
            selection.requested.contains(helper) ==> #[trigger] available.contains(
                (selection.target_type, helper),
            ),
        checked_unit_of(available, selection) is Ok ==> checked_unit_of(available, selection)
            == Ok::<crate::assembly::RegistrationUnitView, GenErrorView>(unit_of(selection)),
        checked_unit_of(available, selection) matches Err(e) ==> e matches GenErrorView::MissingHelper {
            target_type,
            helper,
        } && target_type == selection.target_type && selection.requested.contains(helper)
            && !available.contains((target_type, helper)),
{
}

} // verus!
