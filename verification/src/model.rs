//! The declaration model: the normalized shape of a record, a tagged union
//! or a method block, and the registration entries generated from them.

use vstd::prelude::*;

verus! {

/// A named field of a record.
#[derive(Clone, Debug, PartialEq, Eq)]
pub struct FieldDescriptor {
    pub name: String,
    pub declared_type: String,
}

pub struct FieldDescriptorView {
    pub name: Seq<char>,
    pub declared_type: Seq<char>,
}

impl DeepView for FieldDescriptor {
    type V = FieldDescriptorView;

    open spec fn deep_view(&self) -> FieldDescriptorView {
        FieldDescriptorView { name: self.name@, declared_type: self.declared_type@ }
    }
}

/// A record-like type: its name and its fields in declaration order.
#[derive(Clone, Debug, PartialEq, Eq)]
pub struct Record {
    pub name: String,
    pub fields: Vec<FieldDescriptor>,
}

pub struct RecordView {
    pub name: Seq<char>,
    pub fields: Seq<FieldDescriptorView>,
}

impl DeepView for Record {
    type V = RecordView;

    open spec fn deep_view(&self) -> RecordView {
        RecordView { name: self.name@, fields: self.fields.deep_view() }
    }
}

impl RecordView {
    /// No two fields share a name.
    pub open spec fn well_formed(self) -> bool {
        forall|i: int, j: int|
            0 <= i < j < self.fields.len() ==> self.fields[i].name != self.fields[j].name
    }
}

/// A variant of a tagged union; `is_unit` says that it carries no data.
#[derive(Clone, Debug, PartialEq, Eq)]
pub struct VariantDescriptor {
    pub name: String,
    pub is_unit: bool,
}

pub struct VariantDescriptorView {
    pub name: Seq<char>,
    pub is_unit: bool,
}

impl DeepView for VariantDescriptor {
    type V = VariantDescriptorView;

    open spec fn deep_view(&self) -> VariantDescriptorView {
        VariantDescriptorView { name: self.name@, is_unit: self.is_unit }
    }
}

/// A tagged union: its name and its variants in declaration order.
#[derive(Clone, Debug, PartialEq, Eq)]
pub struct TaggedUnion {
    pub name: String,
    pub variants: Vec<VariantDescriptor>,
}

pub struct TaggedUnionView {
    pub name: Seq<char>,
    pub variants: Seq<VariantDescriptorView>,
}

impl DeepView for TaggedUnion {
    type V = TaggedUnionView;

    open spec fn deep_view(&self) -> TaggedUnionView {
        TaggedUnionView { name: self.name@, variants: self.variants.deep_view() }
    }
}

impl TaggedUnionView {
    /// No two variants share a name.
    pub open spec fn well_formed(self) -> bool {
        forall|i: int, j: int|
            0 <= i < j < self.variants.len() ==> self.variants[i].name != self.variants[j].name
    }
}

/// Whether a routine takes no instance, a read-only instance or a mutable
/// instance.
#[derive(Clone, Copy, Debug, PartialEq, Eq, Structural)]
pub enum Receiver {
    Absent,
    ByRef,
    ByMutRef,
}

/// A forwarded parameter of a routine: the identifier it is bound to and the
/// tokens of its type.
#[derive(Clone, Debug, PartialEq, Eq)]
pub struct Parameter {
    pub name: String,
    pub declared_type: String,
}

pub struct ParameterView {
    pub name: Seq<char>,
    pub declared_type: Seq<char>,
}

impl DeepView for Parameter {
    type V = ParameterView;

    open spec fn deep_view(&self) -> ParameterView {
        ParameterView { name: self.name@, declared_type: self.declared_type@ }
    }
}

/// A routine of a method block.
#[derive(Clone, Debug, PartialEq, Eq)]
pub struct RoutineDescriptor {
    pub name: String,
    pub receiver: Receiver,
    pub parameters: Vec<Parameter>,
}

pub struct RoutineDescriptorView {
    pub name: Seq<char>,
    pub receiver: Receiver,
    pub parameters: Seq<ParameterView>,
}

impl DeepView for RoutineDescriptor {
    type V = RoutineDescriptorView;

    open spec fn deep_view(&self) -> RoutineDescriptorView {
        RoutineDescriptorView {
            name: self.name@,
            receiver: self.receiver,
            parameters: self.parameters.deep_view(),
        }
    }
}

/// A method block: the type it extends and its routines in declaration
/// order.
#[derive(Clone, Debug, PartialEq, Eq)]
pub struct MethodBlock {
    pub owner_name: String,
    pub routines: Vec<RoutineDescriptor>,
}

pub struct MethodBlockView {
    pub owner_name: Seq<char>,
    pub routines: Seq<RoutineDescriptorView>,
}

impl DeepView for MethodBlock {
    type V = MethodBlockView;

    open spec fn deep_view(&self) -> MethodBlockView {
        MethodBlockView { owner_name: self.owner_name@, routines: self.routines.deep_view() }
    }
}

impl MethodBlockView {
    /// No two routines share a name.
    pub open spec fn well_formed(self) -> bool {
        forall|i: int, j: int|
            0 <= i < j < self.routines.len() ==> self.routines[i].name != self.routines[j].name
    }
}

/// A declaration, by kind.
#[derive(Clone, Debug, PartialEq, Eq)]
pub enum DeclarationModel {
    Record(Record),
    TaggedUnion(TaggedUnion),
    MethodBlock(MethodBlock),
}

pub enum DeclarationModelView {
    Record(RecordView),
    TaggedUnion(TaggedUnionView),
    MethodBlock(MethodBlockView),
}

impl DeepView for DeclarationModel {
    type V = DeclarationModelView;

    open spec fn deep_view(&self) -> DeclarationModelView {
        match self {
            DeclarationModel::Record(r) => DeclarationModelView::Record(r.deep_view()),
            DeclarationModel::TaggedUnion(u) => DeclarationModelView::TaggedUnion(u.deep_view()),
            DeclarationModel::MethodBlock(b) => DeclarationModelView::MethodBlock(b.deep_view()),
        }
    }
}

/// What a registration entry does when the runtime invokes it.
#[derive(Clone, Copy, Debug, PartialEq, Eq, Structural)]
pub enum EntryKind {
    /// Reads a field of an instance and returns a duplicate of it.
    Getter,
    /// Takes no argument and returns a fresh value of a unit variant.
    Constructor,
    /// Calls a routine of the owner type that takes no instance.
    StaticCall,
    /// Calls a routine on a read-only borrow of the instance.
    ReadCall,
    /// Calls a routine on an exclusive borrow of the instance.
    MutatingCall,
}

/// One entry of a field table or a method table: the key it is registered
/// under, what it does, and the parameters it forwards.
#[derive(Clone, Debug, PartialEq, Eq)]
pub struct Registration {
    pub key: String,
    pub kind: EntryKind,
    pub parameters: Vec<Parameter>,
}

pub struct RegistrationView {
    pub key: Seq<char>,
    pub kind: EntryKind,
    pub parameters: Seq<ParameterView>,
}

impl DeepView for Registration {
    type V = RegistrationView;

    open spec fn deep_view(&self) -> RegistrationView {
        RegistrationView {
            key: self.key@,
            kind: self.kind,
            parameters: self.parameters.deep_view(),
        }
    }
}

/// The three helper routines that the extractors attach to a type and that
/// an assembly may ask for.
#[derive(Clone, Copy, Debug, PartialEq, Eq, Structural)]
pub enum Helper {
    /// The routine that fills the field table with getters.
    Fields,
    /// The routine that fills the method table with calls.
    Methods,
    /// The routine that fills the method table with constructors.
    Variants,
}

/// The word that asks for a helper in an assembly invocation.
pub open spec fn helper_word(helper: Helper) -> Seq<char> {
    match helper {
        Helper::Fields => "fields"@,
        Helper::Methods => "methods"@,
        Helper::Variants => "variants"@,
    }
}

/// Gives the word that asks for a helper.
pub fn helper_word_of(helper: Helper) -> (r: &'static str)
    ensures
        r@ == helper_word(helper),
{
    match helper {
        Helper::Fields => "fields",
        Helper::Methods => "methods",
        Helper::Variants => "variants",
    }
}

/// Why generation failed. Every failure is final: nothing is generated.
#[derive(Clone, Debug, PartialEq, Eq)]
pub enum GenError {
    /// The source text is not the declaration or invocation asked for.
    Syntax { message: String },
    /// The field at `position` of a record has no name.
    UnnamedField { position: usize },
    /// An assembly invocation lacks an identifier at token `position`.
    ExpectedIdentifier { position: usize },
    /// An assembly invocation lacks a comma at token `position`.
    ExpectedComma { position: usize },
    /// The helper at `index` of an assembly invocation's list is not one of
    /// `fields`, `methods`, `variants`.
    UnknownHelper { token: String, index: usize },
    /// An assembly asks for a helper that was never generated for its target
    /// type.
    MissingHelper { target_type: String, helper: Helper },
}

pub enum GenErrorView {
    Syntax { message: Seq<char> },
    UnnamedField { position: int },
    ExpectedIdentifier { position: int },
    ExpectedComma { position: int },
    UnknownHelper { token: Seq<char>, index: int },
    MissingHelper { target_type: Seq<char>, helper: Helper },
}

impl DeepView for GenError {
    type V = GenErrorView;

    open spec fn deep_view(&self) -> GenErrorView {
        match self {
            GenError::Syntax { message } => GenErrorView::Syntax { message: message@ },
            GenError::UnnamedField { position } => GenErrorView::UnnamedField {
                position: *position as int,
            },
            GenError::ExpectedIdentifier { position } => GenErrorView::ExpectedIdentifier {
                position: *position as int,
            },
            GenError::ExpectedComma { position } => GenErrorView::ExpectedComma {
                position: *position as int,
            },
            GenError::UnknownHelper { token, index } => GenErrorView::UnknownHelper {
                token: token@,
                index: *index as int,
            },
            GenError::MissingHelper { target_type, helper } => GenErrorView::MissingHelper {
                target_type: target_type@,
                helper: *helper,
            },
        }
    }
}

/// The diagnostic of a failure. For a helper that is not in the vocabulary
/// it names the offending word and the words that are accepted.
pub open spec fn message_text(e: GenErrorView) -> Seq<char> {
    match e {
        GenErrorView::Syntax { message } => message,
        GenErrorView::UnnamedField { .. } => "Field must have a name"@,
        GenErrorView::ExpectedIdentifier { .. } => "expected identifier"@,
        GenErrorView::ExpectedComma { .. } => "expected `,`"@,
        GenErrorView::UnknownHelper { token, .. } => "Unknown helper `"@ + token
            + "`: expected 'fields', 'methods', or 'variants'"@,
        GenErrorView::MissingHelper { target_type, helper } => "No `"@ + helper_word(helper)
            + "` helper was generated for `"@ + target_type + "`"@,
    }
}

impl GenError {
    /// Writes the diagnostic of the failure.
    pub fn message(&self) -> (r: String)
        ensures
            r@ == message_text(self.deep_view()),
    {
        match self {
            GenError::Syntax { message } => message.clone(),
            GenError::UnnamedField { .. } => String::from_str("Field must have a name"),
            GenError::ExpectedIdentifier { .. } => String::from_str("expected identifier"),
            GenError::ExpectedComma { .. } => String::from_str("expected `,`"),
            GenError::UnknownHelper { token, .. } => {
                let mut out = String::from_str("Unknown helper `");
                out.append(token.as_str());
                out.append("`: expected 'fields', 'methods', or 'variants'");
                out
            },
            GenError::MissingHelper { target_type, helper } => {
                let mut out = String::from_str("No `");
                out.append(helper_word_of(*helper));
                out.append("` helper was generated for `");
                out.append(target_type.as_str());
                out.append("`");
                out
            },
        }
    }
}

/// What a generation step came back with, by view: the value produced, or
/// the failure.
pub open spec fn produced<T: DeepView>(r: Result<T, GenError>) -> Result<T::V, GenErrorView> {
    match r {
        Ok(value) => Ok(value.deep_view()),
        Err(e) => Err(e.deep_view()),
    }
}

} // verus!
