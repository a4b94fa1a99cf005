//! Field bindings: from a record to one getter entry per field.
//!
//! Every field of a record must have a name; a declaration with an unnamed
//! field is malformed and nothing is generated for it. No setter is ever
//! generated: fields are read-only from the scripting side.

use crate::model::{
    produced, EntryKind, FieldDescriptor, FieldDescriptorView, GenError, GenErrorView, Helper,
    Parameter, Record, RecordView, Registration, RegistrationView,
};
use crate::render::{helper_text, render_helper};
use crate::search::first_where;
use crate::syntax::{
    parse_struct, struct_syntax, FieldSyntax, FieldSyntaxView, StructSyntax, StructSyntaxView,
};
use vstd::prelude::*;

verus! {

/// The first index from `start` on whose field has no name, or the length if
/// every field has one.
pub open spec fn unnamed_from(fields: Seq<FieldSyntaxView>, start: int) -> int {
    first_where(|index: int| fields[index].name is None, start, fields.len() as int)
}

/// The descriptor of a field that has a name.
pub open spec fn field_of(field: FieldSyntaxView) -> FieldDescriptorView {
    FieldDescriptorView { name: field.name->0, declared_type: field.declared_type }
}

/// The record that a parsed struct describes, or the failure if one of its
/// fields has no name; the first such field decides.
pub open spec fn record_of(syntax: StructSyntaxView) -> Result<RecordView, GenErrorView> {
    let unnamed = unnamed_from(syntax.fields, 0);
    if unnamed < syntax.fields.len() {
        Err(GenErrorView::UnnamedField { position: unnamed })
    } else {
        Ok(
            RecordView {
                name: syntax.name,
                fields: syntax.fields.map_values(|field: FieldSyntaxView| field_of(field)),
            },
        )
    }
}

/// The getter entry of a field: keyed by the field's name, reading that
/// field.
pub open spec fn getter_of(field: FieldDescriptorView) -> RegistrationView {
    RegistrationView { key: field.name, kind: EntryKind::Getter, parameters: Seq::empty() }
}

/// The getter entries of a record: one per field, in declaration order.
pub open spec fn getter_entries_of(record: RecordView) -> Seq<RegistrationView> {
    record.fields.map_values(|field: FieldDescriptorView| getter_of(field))
}

/// What [`read_record`] returns for an item that the parser answered
/// `parsed` for: the record, or the failure.
pub open spec fn record_read(parsed: Result<StructSyntaxView, Seq<char>>) -> Result<
    RecordView,
    GenErrorView,
> {
    match parsed {
        Err(message) => Err(GenErrorView::Syntax { message }),
        Ok(syntax) => record_of(syntax),
    }
}

/// The fields helper of a record.
pub open spec fn record_text(record: RecordView) -> Seq<char> {
    helper_text(record.name, Helper::Fields, getter_entries_of(record))
}

/// What [`structure`] returns for an item that the parser answered `parsed`
/// for: the item followed by its fields helper, or the failure.
pub open spec fn structure_text(
    item: Seq<char>,
    parsed: Result<StructSyntaxView, Seq<char>>,
) -> Result<Seq<char>, GenErrorView> {
    match record_read(parsed) {
        Err(e) => Err(e),
        Ok(record) => Ok(item + "\n"@ + record_text(record)),
    }
}

/// Extracts the record from a parsed struct.
pub fn extract_record(syntax: &StructSyntax) -> (r: Result<Record, GenError>)
    ensures
        produced(r) == record_of(syntax.deep_view()),
{
    let ghost all = syntax.fields.deep_view();
    let mut fields: Vec<FieldDescriptor> = Vec::new();
    let mut i: usize = 0;
    while i < syntax.fields.len()
        invariant
            i <= syntax.fields.len(),
            all == syntax.fields.deep_view(),
            unnamed_from(all, 0) == unnamed_from(all, i as int),
            fields.deep_view() == all.map_values(|field: FieldSyntaxView| field_of(field)).take(
                i as int,
            ),
        decreases syntax.fields.len() - i,
    {
        let ghost before = fields.deep_view();
        let field: &FieldSyntax = &syntax.fields[i];
        match &field.name {
            Some(name) => {
                let descriptor = FieldDescriptor {
                    name: name.clone(),
                    declared_type: field.declared_type.clone(),
                };
                fields.push(descriptor);
                assert(fields.deep_view() =~= before.push(descriptor.deep_view()));
            },
            None => {
                return Err(GenError::UnnamedField { position: i });
            },
        }
        i += 1;
    }
    proof {
        let mapped = all.map_values(|field: FieldSyntaxView| field_of(field));
        assert(mapped.take(syntax.fields.len() as int) =~= mapped);
    }
    Ok(Record { name: syntax.name.clone(), fields })
}

/// Generates the getter entries of a record.
pub fn getter_entries(record: &Record) -> (r: Vec<Registration>)
    ensures
        r.deep_view() == getter_entries_of(record.deep_view()),
{
    let mut out: Vec<Registration> = Vec::new();
    let mut i: usize = 0;
    while i < record.fields.len()
        invariant
            i <= record.fields.len(),
            out.deep_view() == getter_entries_of(record.deep_view()).take(i as int),
        decreases record.fields.len() - i,
    {
        let ghost before = out.deep_view();
        let parameters: Vec<Parameter> = Vec::new();
        assert(parameters.deep_view() =~= Seq::empty());
        let entry = Registration {
            key: record.fields[i].name.clone(),
            kind: EntryKind::Getter,
            parameters,
        };
        out.push(entry);
        assert(out.deep_view() =~= before.push(entry.deep_view()));
        i += 1;
    }
    out
}

/// Reads a struct given as source text into a record. Fails if the text is
/// not a struct or if one of its fields has no name.
pub fn read_record(item: &str) -> (r: Result<Record, GenError>)
    ensures
        produced(r) == record_read(struct_syntax(item@)),
{
    match parse_struct(item) {
        Err(e) => Err(GenError::Syntax { message: e.message }),
        Ok(syntax) => extract_record(&syntax),
    }
}

/// Generates the fields helper of a record.
pub fn generate_fields_helper(record: &Record) -> (r: String)
    ensures
        r@ == record_text(record.deep_view()),
{
    let entries = getter_entries(record);
    render_helper(record.name.as_str(), Helper::Fields, &entries)
}

/// Generates the field bindings of a struct given as source text: the struct
/// itself, followed by the helper routine that registers one getter per
/// field. Fails, generating nothing, if the text is not a struct or if one of
/// its fields has no name.
pub fn structure(item: &str) -> (r: Result<String, GenError>)
    ensures
        produced(r) == structure_text(item@, struct_syntax(item@)),
{
    match read_record(item) {
        Err(e) => Err(e),
        Ok(record) => {
            let helper = generate_fields_helper(&record);
            let mut out = String::from_str(item);
            out.append("\n");
            out.append(helper.as_str());
            Ok(out)
        },
    }
}

/// A record with N fields has exactly N getter entries, the i-th keyed by the
/// name of the i-th field; if no two fields share a name, no two entries
/// share a key.
pub proof fn getters_cover_fields(record: RecordView)
    ensures
        getter_entries_of(record).len() == record.fields.len(),
        forall|i: int|
            0 <= i < record.fields.len() ==> {
                &&& (#[trigger] getter_entries_of(record)[i]).key == record.fields[i].name
                &&& getter_entries_of(record)[i].kind == EntryKind::Getter
            },
        record.well_formed() ==> forall|i: int, j: int|
            0 <= i < j < record.fields.len() ==> (#[trigger] getter_entries_of(record)[i]).key != (
            #[trigger] getter_entries_of(record)[j]).key,
{
}

} // verus!
