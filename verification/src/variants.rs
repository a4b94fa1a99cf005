//! Variant bindings: from a tagged union to one constructor entry per unit
//! variant, and the routine that recovers a native value from a handle of
//! the scripting runtime.
//!
//! A variant that carries data is recorded and gets no constructor. That is
//! no failure: whoever declares the union exposes such a variant through a
//! routine of a method block.

use crate::model::{
    EntryKind, GenError, GenErrorView, Helper, Parameter, Registration, RegistrationView,
    TaggedUnion, TaggedUnionView, VariantDescriptor, VariantDescriptorView, produced,
};
use crate::render::{helper_text, render_helper};
use crate::syntax::{
    enum_syntax, parse_enum, EnumSyntax, EnumSyntaxView, VariantShape, VariantSyntaxView,
};
use vstd::prelude::*;

verus! {

/// The descriptor of a variant: it is a unit variant if it is written
/// without a payload.
pub open spec fn variant_of(variant: VariantSyntaxView) -> VariantDescriptorView {
    VariantDescriptorView { name: variant.name, is_unit: variant.shape == VariantShape::Unit }
}

/// The tagged union that a parsed enum describes.
pub open spec fn tagged_union_of(syntax: EnumSyntaxView) -> TaggedUnionView {
    TaggedUnionView {
        name: syntax.name,
        variants: syntax.variants.map_values(|variant: VariantSyntaxView| variant_of(variant)),
    }
}

/// The constructor entry of a variant, if it has one: keyed by the variant's
/// name, taking no argument.
pub open spec fn constructor_of(variant: VariantDescriptorView) -> Option<RegistrationView> {
    if variant.is_unit {
        Some(
            RegistrationView {
                key: variant.name,
                kind: EntryKind::Constructor,
                parameters: Seq::empty(),
            },
        )
    } else {
        None
    }
}

/// The constructor entries of a tagged union: one per unit variant, in
/// declaration order.
pub open spec fn constructor_entries_of(union: TaggedUnionView) -> Seq<RegistrationView> {
    union.variants.filter_map(|variant: VariantDescriptorView| constructor_of(variant))
}

/// The value-recovery routine of the tagged union `name`. Given a handle, it
/// borrows the native value behind it and returns a duplicate. Given a handle
/// that is not backed by this type, it fails with a conversion error that
/// carries the observed type name and `name`: for a value that is no
/// userdata, the type name that the runtime's own conversion to a userdata
/// handle reports; for a userdata of another type, `userdata`. Any other
/// failure is passed on.
pub open spec fn recovery_text(name: Seq<char>) -> Seq<char> {
    "impl mlua::FromLua for "@
        + name
        + " where "@
        + name
        + ": Clone {\n"@
        + "    fn from_lua(value: mlua::Value, lua: &mlua::Lua) -> mlua::Result<Self> {\n"@
        + "        let observed = match <mlua::AnyUserData as mlua::FromLua>::from_lua(value, lua) {\n"@
        + "            Ok(handle) => match handle.borrow::<"@
        + name
        + ">() {\n"@
        + "                Ok(borrowed) => return Ok(borrowed.clone()),\n"@
        + "                Err(mlua::Error::UserDataTypeMismatch) => \"userdata\",\n"@
        + "                Err(other) => return Err(other),\n"@
        + "            },\n"@
        + "            Err(mlua::Error::FromLuaConversionError { from, .. }) => from,\n"@
        + "            Err(other) => return Err(other),\n"@
        + "        };\n"@
        + "        Err(mlua::Error::FromLuaConversionError {\n"@
        + "            from: observed,\n"@
        + "            to: \""@
        + name
        + "\".to_string(),\n"@
        + "            message: Some(\"expected userdata for "@
        + name
        + "\".to_string()),\n"@
        + "        })\n"@
        + "    }\n"@
        + "}\n"@
}

/// What is generated for a tagged union: its variants helper, then its
/// value-recovery routine.
pub open spec fn union_text(union: TaggedUnionView) -> Seq<char> {
    helper_text(union.name, Helper::Variants, constructor_entries_of(union)) + "\n"@
        + recovery_text(union.name)
}

/// What [`read_tagged_union`] returns for an item that the parser answered
/// `parsed` for: the tagged union, or the failure.
pub open spec fn tagged_union_read(parsed: Result<EnumSyntaxView, Seq<char>>) -> Result<
    TaggedUnionView,
    GenErrorView,
> {
    match parsed {
        Err(message) => Err(GenErrorView::Syntax { message }),
        Ok(syntax) => Ok(tagged_union_of(syntax)),
    }
}

/// What [`enumeration`] returns for an item that the parser answered
/// `parsed` for: the item followed by what is generated for it, or the
/// failure.
pub open spec fn enumeration_text(
    item: Seq<char>,
    parsed: Result<EnumSyntaxView, Seq<char>>,
) -> Result<Seq<char>, GenErrorView> {
    match tagged_union_read(parsed) {
        Err(e) => Err(e),
        Ok(union) => Ok(item + "\n"@ + union_text(union)),
    }
}

/// Extracts the tagged union from a parsed enum.
pub fn extract_tagged_union(syntax: &EnumSyntax) -> (r: TaggedUnion)
    ensures
        r.deep_view() == tagged_union_of(syntax.deep_view()),
{
    let mut variants: Vec<VariantDescriptor> = Vec::new();
    let mut i: usize = 0;
    while i < syntax.variants.len()
        invariant
            i <= syntax.variants.len(),
            variants.deep_view() == tagged_union_of(syntax.deep_view()).variants.take(i as int),
        decreases syntax.variants.len() - i,
    {
        let ghost before = variants.deep_view();
        let is_unit = match syntax.variants[i].shape {
            VariantShape::Unit => true,
            _ => false,
        };
        let descriptor = VariantDescriptor { name: syntax.variants[i].name.clone(), is_unit };
        variants.push(descriptor);
        assert(variants.deep_view() =~= before.push(descriptor.deep_view()));
        i += 1;
    }
    proof {
        let all = tagged_union_of(syntax.deep_view()).variants;
        assert(all.take(syntax.variants.len() as int) =~= all);
    }
    TaggedUnion { name: syntax.name.clone(), variants }
}

/// Generates the constructor entries of a tagged union.
pub fn constructor_entries(union: &TaggedUnion) -> (r: Vec<Registration>)
    ensures
        r.deep_view() == constructor_entries_of(union.deep_view()),
{
    let ghost all = union.variants.deep_view();
    let mut out: Vec<Registration> = Vec::new();
    let mut i: usize = 0;
    while i < union.variants.len()
        invariant
            i <= union.variants.len(),
            all == union.variants.deep_view(),
            out.deep_view() == all.take(i as int).filter_map(
                |variant: VariantDescriptorView| constructor_of(variant),
            ),
        decreases union.variants.len() - i,
    {
        if union.variants[i].is_unit {
            let parameters: Vec<Parameter> = Vec::new();
            assert(parameters.deep_view() =~= Seq::empty());
            let entry = Registration {
                key: union.variants[i].name.clone(),
                kind: EntryKind::Constructor,
                parameters,
            };
            out.push(entry);
        }
        proof {
            all.lemma_filter_map_take_succ(
                |variant: VariantDescriptorView| constructor_of(variant),
                i as int,
            );
        }
        i += 1;
    }
    proof {
        assert(all.take(union.variants.len() as int) =~= all);
    }
    out
}

/// Writes the value-recovery routine of the tagged union `name`.
pub fn render_recovery(name: &str) -> (r: String)
    ensures
        r@ == recovery_text(name@),
{
    let mut out = String::from_str("impl mlua::FromLua for ");
    out.append(name);
    out.append(" where ");
    out.append(name);
    out.append(": Clone {\n");
    out.append("    fn from_lua(value: mlua::Value, lua: &mlua::Lua) -> mlua::Result<Self> {\n");
    out.append("        let observed = match <mlua::AnyUserData as mlua::FromLua>::from_lua(value, lua) {\n");
    out.append("            Ok(handle) => match handle.borrow::<");
    out.append(name);
    out.append(">() {\n");
    out.append("                Ok(borrowed) => return Ok(borrowed.clone()),\n");
    out.append("                Err(mlua::Error::UserDataTypeMismatch) => \"userdata\",\n");
    out.append("                Err(other) => return Err(other),\n");
    out.append("            },\n");
    out.append("            Err(mlua::Error::FromLuaConversionError { from, .. }) => from,\n");
    out.append("            Err(other) => return Err(other),\n");
    out.append("        };\n");
    out.append("        Err(mlua::Error::FromLuaConversionError {\n");
    out.append("            from: observed,\n");
    out.append("            to: \"");
    out.append(name);
    out.append("\".to_string(),\n");
    out.append("            message: Some(\"expected userdata for ");
    out.append(name);
    out.append("\".to_string()),\n");
    out.append("        })\n");
    out.append("    }\n");
    out.append("}\n");
    out
}

/// Generates the variants helper and the value-recovery routine of a tagged
/// union.
pub fn generate_variants_helper(union: &TaggedUnion) -> (r: String)
    ensures
        r@ == union_text(union.deep_view()),
{
    let entries = constructor_entries(union);
    let mut out = render_helper(union.name.as_str(), Helper::Variants, &entries);
    let recovery = render_recovery(union.name.as_str());
    out.append("\n");
    out.append(recovery.as_str());
    out
}

/// Reads an enum given as source text into a tagged union. Fails if the text
/// is not an enum.
pub fn read_tagged_union(item: &str) -> (r: Result<TaggedUnion, GenError>)
    ensures
        produced(r) == tagged_union_read(enum_syntax(item@)),
{
    match parse_enum(item) {
        Err(e) => Err(GenError::Syntax { message: e.message }),
        Ok(syntax) => Ok(extract_tagged_union(&syntax)),
    }
}

/// Generates the variant bindings of an enum given as source text: the enum
/// itself, followed by the helper routine that registers one constructor per
/// unit variant and by the value-recovery routine. Fails, generating nothing,
/// if the text is not an enum.
pub fn enumeration(item: &str) -> (r: Result<String, GenError>)
    ensures
        produced(r) == enumeration_text(item@, enum_syntax(item@)),
{
    match read_tagged_union(item) {
        Err(e) => Err(e),
        Ok(union) => {
            let generated = generate_variants_helper(&union);
            let mut out = String::from_str(item);
            out.append("\n");
            out.append(generated.as_str());
            Ok(out)
        },
    }
}

/// The unit variants of a tagged union, in declaration order.
pub open spec fn unit_variants(union: TaggedUnionView) -> Seq<VariantDescriptorView> {
    union.variants.filter(|variant: VariantDescriptorView| variant.is_unit)
}

/// The constructor entries of a list of variants are, one for one, its unit
/// variants.
proof fn lemma_constructors_are_unit_variants(variants: Seq<VariantDescriptorView>)
    ensures
        variants.filter_map(|variant: VariantDescriptorView| constructor_of(variant))
            == variants.filter(|variant: VariantDescriptorView| variant.is_unit).map_values(
            |variant: VariantDescriptorView| constructor_of(variant)->0,
        ),
    decreases variants.len(),
{
    reveal(Seq::filter);
    if variants.len() > 0 {
        lemma_constructors_are_unit_variants(variants.drop_last());
    }
}

/// A tagged union with U unit variants has exactly U constructor entries: the
/// k-th is keyed by the name of the k-th unit variant and takes no argument.
/// If no two variants share a name, no entry is keyed by the name of a
/// variant that carries data.
pub proof fn constructors_cover_unit_variants(union: TaggedUnionView)
    ensures
        constructor_entries_of(union).len() == unit_variants(union).len(),
        forall|k: int|
            0 <= k < unit_variants(union).len() ==> {
                &&& (#[trigger] constructor_entries_of(union)[k]).key == unit_variants(
                    union,
                )[k].name
                &&& constructor_entries_of(union)[k].kind == EntryKind::Constructor
                &&& constructor_entries_of(union)[k].parameters.len() == 0
                &&& unit_variants(union)[k].is_unit
            },
        union.well_formed() ==> forall|i: int, k: int|
            0 <= i < union.variants.len() && !union.variants[i].is_unit && 0 <= k
                < constructor_entries_of(union).len() ==> (#[trigger] constructor_entries_of(
                union,
            )[k]).key != (#[trigger] union.variants[i]).name,
{
    let unit = |variant: VariantDescriptorView| variant.is_unit;
    let units = unit_variants(union);
    lemma_constructors_are_unit_variants(union.variants);
    if union.well_formed() {
        assert forall|i: int, k: int|
            0 <= i < union.variants.len() && !union.variants[i].is_unit && 0 <= k
                < constructor_entries_of(union).len() implies (#[trigger] constructor_entries_of(
            union,
        )[k]).key != (#[trigger] union.variants[i]).name by {
            assert(units.contains(units[k]));
            union.variants.lemma_filter_contains_rev(unit, units[k]);
            let j = choose|j: int| 0 <= j < union.variants.len() && union.variants[j] == units[k];
            assert(i != j);
            if i < j {
                assert(union.variants[i].name != union.variants[j].name);
            } else {
                assert(union.variants[j].name != union.variants[i].name);
            }
        }
    }
}

} // verus!
