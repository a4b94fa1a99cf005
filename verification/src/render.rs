//! The text of generated code: registration entries and the helper routines
//! that hold them.
//!
//! Each spec function here says, character for character, what the function
//! beside it writes.

use crate::model::{EntryKind, Helper, Parameter, ParameterView, Registration, RegistrationView};
use vstd::prelude::*;

verus! {

/// The name of the routine that a helper is generated as.
pub open spec fn routine_name(helper: Helper) -> Seq<char> {
    match helper {
        Helper::Fields => "_to_mlua_fields"@,
        Helper::Methods => "_to_mlua_methods"@,
        Helper::Variants => "_to_mlua_variants"@,
    }
}

/// The name of the table builder that a helper registers into: getters go
/// into the field table, calls and constructors into the method table.
pub open spec fn table_name(helper: Helper) -> Seq<char> {
    match helper {
        Helper::Fields => "fields"@,
        Helper::Methods => "methods"@,
        Helper::Variants => "methods"@,
    }
}

/// The type parameter that stands for the table builder.
pub open spec fn table_type(helper: Helper) -> Seq<char> {
    match helper {
        Helper::Fields => "F"@,
        Helper::Methods => "M"@,
        Helper::Variants => "M"@,
    }
}

/// The capability of the host protocol that the table builder must have.
pub open spec fn table_bound(helper: Helper) -> Seq<char> {
    match helper {
        Helper::Fields => "mlua::UserDataFields<Self>"@,
        Helper::Methods => "mlua::UserDataMethods<Self>"@,
        Helper::Variants => "mlua::UserDataMethods<Self>"@,
    }
}

/// Gives the name of the routine that a helper is generated as.
pub fn routine_name_of(helper: Helper) -> (r: &'static str)
    ensures
        r@ == routine_name(helper),
{
    match helper {
        Helper::Fields => "_to_mlua_fields",
        Helper::Methods => "_to_mlua_methods",
        Helper::Variants => "_to_mlua_variants",
    }
}

/// Gives the name of the table builder that a helper registers into.
pub fn table_name_of(helper: Helper) -> (r: &'static str)
    ensures
        r@ == table_name(helper),
{
    match helper {
        Helper::Fields => "fields",
        Helper::Methods => "methods",
        Helper::Variants => "methods",
    }
}

/// Gives the type parameter that stands for the table builder.
pub fn table_type_of(helper: Helper) -> (r: &'static str)
    ensures
        r@ == table_type(helper),
{
    match helper {
        Helper::Fields => "F",
        Helper::Methods => "M",
        Helper::Variants => "M",
    }
}

/// Gives the capability that the table builder must have.
pub fn table_bound_of(helper: Helper) -> (r: &'static str)
    ensures
        r@ == table_bound(helper),
{
    match helper {
        Helper::Fields => "mlua::UserDataFields<Self>",
        Helper::Methods => "mlua::UserDataMethods<Self>",
        Helper::Variants => "mlua::UserDataMethods<Self>",
    }
}

/// The names of the parameters in order, each followed by a comma, as they
/// stand in a tuple pattern and in a call: `a, b,`.
pub open spec fn names_text(parameters: Seq<ParameterView>) -> Seq<char>
    decreases parameters.len(),
{
    if parameters.len() == 0 {
        Seq::empty()
    } else if parameters.len() == 1 {
        parameters.last().name + ","@
    } else {
        names_text(parameters.drop_last()) + " "@ + parameters.last().name + ","@
    }
}

/// The types of the parameters in order, each followed by a comma, as they
/// stand in a tuple type: `A, B,`.
pub open spec fn types_text(parameters: Seq<ParameterView>) -> Seq<char>
    decreases parameters.len(),
{
    if parameters.len() == 0 {
        Seq::empty()
    } else if parameters.len() == 1 {
        parameters.last().declared_type + ","@
    } else {
        types_text(parameters.drop_last()) + " "@ + parameters.last().declared_type + ","@
    }
}

/// The statement that registers one entry. `owner` is the type whose routines
/// and variants the entry names.
pub open spec fn entry_text(owner: Seq<char>, entry: RegistrationView) -> Seq<char> {
    let names = names_text(entry.parameters);
    let types = types_text(entry.parameters);
    match entry.kind {
        EntryKind::Getter => "        fields.add_field_method_get(\""@ + entry.key
            + "\", |_, this| { return Ok(this."@ + entry.key + ".clone()); });\n"@,
        EntryKind::Constructor => "        methods.add_function(\""@ + entry.key
            + "\", |_, (): ()| { Ok("@ + owner + "::"@ + entry.key + ") });\n"@,
        EntryKind::StaticCall => "        methods.add_function(\""@ + entry.key + "\", |_, ("@
            + names + "): ("@ + types + ")| { Ok("@ + owner + "::"@ + entry.key + "("@ + names
            + ")) });\n"@,
        EntryKind::ReadCall => "        methods.add_method(\""@ + entry.key
            + "\", |_, this, ("@ + names + "): ("@ + types + ")| { Ok(this."@ + entry.key + "("@
            + names + ")) });\n"@,
        EntryKind::MutatingCall => "        methods.add_method_mut(\""@ + entry.key
            + "\", |_, this, ("@ + names + "): ("@ + types + ")| { Ok(this."@ + entry.key + "("@
            + names + ")) });\n"@,
    }
}

/// The statements that register the entries, in order.
pub open spec fn entries_text(owner: Seq<char>, entries: Seq<RegistrationView>) -> Seq<char>
    decreases entries.len(),
{
    if entries.len() == 0 {
        Seq::empty()
    } else {
        entries_text(owner, entries.drop_last()) + entry_text(owner, entries.last())
    }
}

/// The helper routine: an inherent method block on `owner` whose one hidden
/// routine registers the entries into the table builder it is handed.
pub open spec fn helper_text(owner: Seq<char>, helper: Helper, entries: Seq<RegistrationView>) -> Seq<
    char,
> {
    "impl "@ + owner + " {\n"@ + "    #[doc(hidden)]\n"@ + "    pub fn "@ + routine_name(helper)
        + "<"@ + table_type(helper) + ": "@ + table_bound(helper) + ">("@ + table_name(helper)
        + ": &mut "@ + table_type(helper) + ") -> () {\n"@ + entries_text(owner, entries)
        + "    }\n"@ + "}\n"@
}

/// Writes the parameter names, each followed by a comma.
pub fn render_names(parameters: &Vec<Parameter>) -> (r: String)
    ensures
        r@ == names_text(parameters.deep_view()),
{
    let mut out = String::new();
    let mut i: usize = 0;
    while i < parameters.len()
        invariant
            i <= parameters.len(),
            out@ == names_text(parameters.deep_view().take(i as int)),
        decreases parameters.len() - i,
    {
        if i > 0 {
            out.append(" ");
        }
        out.append(parameters[i].name.as_str());
        out.append(",");
        proof {
            let all = parameters.deep_view();
            assert(all.take(i + 1).drop_last() =~= all.take(i as int));
        }
        i += 1;
    }
    proof {
        assert(parameters.deep_view().take(parameters.len() as int) =~= parameters.deep_view());
    }
    out
}

/// Writes the parameter types, each followed by a comma.
pub fn render_types(parameters: &Vec<Parameter>) -> (r: String)
    ensures
        r@ == types_text(parameters.deep_view()),
{
    let mut out = String::new();
    let mut i: usize = 0;
    while i < parameters.len()
        invariant
            i <= parameters.len(),
            out@ == types_text(parameters.deep_view().take(i as int)),
        decreases parameters.len() - i,
    {
        if i > 0 {
            out.append(" ");
        }
        out.append(parameters[i].declared_type.as_str());
        out.append(",");
        proof {
            let all = parameters.deep_view();
            assert(all.take(i + 1).drop_last() =~= all.take(i as int));
        }
        i += 1;
    }
    proof {
        assert(parameters.deep_view().take(parameters.len() as int) =~= parameters.deep_view());
    }
    out
}

/// Writes the statement that registers one entry.
pub fn render_entry(owner: &str, entry: &Registration) -> (r: String)
    ensures
        r@ == entry_text(owner@, entry.deep_view()),
{
    let key = entry.key.as_str();
    match entry.kind {
        EntryKind::Getter => {
            let mut out = String::from_str("        fields.add_field_method_get(\"");
            out.append(key);
            out.append("\", |_, this| { return Ok(this.");
            out.append(key);
            out.append(".clone()); });\n");
            out
        },
        EntryKind::Constructor => {
            let mut out = String::from_str("        methods.add_function(\"");
            out.append(key);
            out.append("\", |_, (): ()| { Ok(");
            out.append(owner);
            out.append("::");
            out.append(key);
            out.append(") });\n");
            out
        },
        EntryKind::StaticCall => {
            let names = render_names(&entry.parameters);
            let types = render_types(&entry.parameters);
            let mut out = String::from_str("        methods.add_function(\"");
            out.append(key);
            out.append("\", |_, (");
            out.append(names.as_str());
            out.append("): (");
            out.append(types.as_str());
            out.append(")| { Ok(");
            out.append(owner);
            out.append("::");
            out.append(key);
            out.append("(");
            out.append(names.as_str());
            out.append(")) });\n");
            out
        },
        EntryKind::ReadCall => {
            let names = render_names(&entry.parameters);
            let types = render_types(&entry.parameters);
            let mut out = String::from_str("        methods.add_method(\"");
            out.append(key);
            out.append("\", |_, this, (");
            out.append(names.as_str());
            out.append("): (");
            out.append(types.as_str());
            out.append(")| { Ok(this.");
            out.append(key);
            out.append("(");
            out.append(names.as_str());
            out.append(")) });\n");
            out
        },
        EntryKind::MutatingCall => {
            let names = render_names(&entry.parameters);
            let types = render_types(&entry.parameters);
            let mut out = String::from_str("        methods.add_method_mut(\"");
            out.append(key);
            out.append("\", |_, this, (");
            out.append(names.as_str());
            out.append("): (");
            out.append(types.as_str());
            out.append(")| { Ok(this.");
            out.append(key);
            out.append("(");
            out.append(names.as_str());
            out.append(")) });\n");
            out
        },
    }
}

/// Writes the statements that register the entries, in order.
pub fn render_entries(owner: &str, entries: &Vec<Registration>) -> (r: String)
    ensures
        r@ == entries_text(owner@, entries.deep_view()),
{
    let mut out = String::new();
    let mut i: usize = 0;
    while i < entries.len()
        invariant
            i <= entries.len(),
            out@ == entries_text(owner@, entries.deep_view().take(i as int)),
        decreases entries.len() - i,
    {
        let line = render_entry(owner, &entries[i]);
        out.append(line.as_str());
        proof {
            let all = entries.deep_view();
            assert(all.take(i + 1).drop_last() =~= all.take(i as int));
        }
        i += 1;
    }
    proof {
        assert(entries.deep_view().take(entries.len() as int) =~= entries.deep_view());
    }
    out
}

/// Writes the helper routine that registers the entries.
pub fn render_helper(owner: &str, helper: Helper, entries: &Vec<Registration>) -> (r: String)
    ensures
        r@ == helper_text(owner@, helper, entries.deep_view()),
{
    let body = render_entries(owner, entries);
    let mut out = String::from_str("impl ");
    out.append(owner);
    out.append(" {\n");
    out.append("    #[doc(hidden)]\n");
    out.append("    pub fn ");
    out.append(routine_name_of(helper));
    out.append("<");
    out.append(table_type_of(helper));
    out.append(": ");
    out.append(table_bound_of(helper));
    out.append(">(");
    out.append(table_name_of(helper));
    out.append(": &mut ");
    out.append(table_type_of(helper));
    out.append(") -> () {\n");
    out.append(body.as_str());
    out.append("    }\n");
    out.append("}\n");
    out
}

} // verus!
