//! Assembly: from an invocation `TypeName, helper, helper, ...` to the
//! registration unit of the type.
//!
//! One pass, no state: the token trees are scanned into lexemes, the lexemes
//! are read against the grammar, the helpers are checked against the
//! vocabulary `fields`, `methods`, `variants`, and the unit is written. The
//! unit calls the helper routines by name; whether they exist is for the
//! build that compiles the unit to find out.

use crate::model::{helper_word, helper_word_of, produced, GenError, GenErrorView, Helper};
use crate::render::{routine_name, routine_name_of, table_name, table_name_of};
use crate::search::{first_where, first_where_is_least};
use crate::syntax::{accepts_identifier, is_identifier, lex, token_trees, Token, TokenView};
use vstd::prelude::*;

verus! {

/// What a token tree counts as in an invocation.
#[derive(Clone, Debug, PartialEq, Eq)]
pub enum Lexeme {
    /// A word that is an identifier.
    Identifier(String),
    /// The punctuation `,`.
    Comma,
    /// Anything else: a keyword, other punctuation, a literal, a group.
    Other,
}

pub enum LexemeView {
    Identifier(Seq<char>),
    Comma,
    Other,
}

impl DeepView for Lexeme {
    type V = LexemeView;

    open spec fn deep_view(&self) -> LexemeView {
        match self {
            Lexeme::Identifier(text) => LexemeView::Identifier(text@),
            Lexeme::Comma => LexemeView::Comma,
            Lexeme::Other => LexemeView::Other,
        }
    }
}

/// An invocation as read: the target type and the helper words in order.
#[derive(Clone, Debug, PartialEq, Eq)]
pub struct CompileInput {
    pub target_type: String,
    pub helpers: Vec<String>,
}

pub struct CompileInputView {
    pub target_type: Seq<char>,
    pub helpers: Seq<Seq<char>>,
}

impl DeepView for CompileInput {
    type V = CompileInputView;

    open spec fn deep_view(&self) -> CompileInputView {
        CompileInputView { target_type: self.target_type@, helpers: self.helpers.deep_view() }
    }
}

/// The target type of an assembly and the set of helpers it asks for.
#[derive(Clone, Debug, PartialEq, Eq)]
pub struct BindingSelection {
    pub target_type: String,
    pub fields: bool,
    pub methods: bool,
    pub variants: bool,
}

pub struct BindingSelectionView {
    pub target_type: Seq<char>,
    pub requested: Set<Helper>,
}

impl DeepView for BindingSelection {
    type V = BindingSelectionView;

    open spec fn deep_view(&self) -> BindingSelectionView {
        BindingSelectionView {
            target_type: self.target_type@,
            requested: Set::new(
                |helper: Helper|
                    match helper {
                        Helper::Fields => self.fields,
                        Helper::Methods => self.methods,
                        Helper::Variants => self.variants,
                    },
            ),
        }
    }
}

/// The object-exposure implementation of a type: which helper routines its
/// field-table builder calls and which its method-table builder calls, in
/// order.
#[derive(Clone, Debug, PartialEq, Eq)]
pub struct RegistrationUnit {
    pub target_type: String,
    pub field_table: Vec<Helper>,
    pub method_table: Vec<Helper>,
}

pub struct RegistrationUnitView {
    pub target_type: Seq<char>,
    pub field_table: Seq<Helper>,
    pub method_table: Seq<Helper>,
}

impl DeepView for RegistrationUnit {
    type V = RegistrationUnitView;

    open spec fn deep_view(&self) -> RegistrationUnitView {
        RegistrationUnitView {
            target_type: self.target_type@,
            field_table: self.field_table@,
            method_table: self.method_table@,
        }
    }
}

/// What a token tree counts as: a word that the parser takes for an
/// identifier, the comma, or something else.
pub open spec fn lexeme_of(token: TokenView) -> LexemeView {
    match token {
        TokenView::Word(text) => if is_identifier(text) {
            LexemeView::Identifier(text)
        } else {
            LexemeView::Other
        },
        TokenView::Punct(c) => if c == ',' {
            LexemeView::Comma
        } else {
            LexemeView::Other
        },
        _ => LexemeView::Other,
    }
}

/// The lexemes of a token list, one per token tree.
pub open spec fn lexemes_of(tokens: Seq<TokenView>) -> Seq<LexemeView> {
    tokens.map_values(|token: TokenView| lexeme_of(token))
}

/// Whether the lexeme at `position` is what the grammar wants there: an
/// identifier at an even position, a comma at an odd one.
pub open spec fn fits(lexemes: Seq<LexemeView>, position: int) -> bool {
    if position % 2 == 0 {
        lexemes[position] is Identifier
    } else {
        lexemes[position] is Comma
    }
}

/// The first position from `start` on whose lexeme does not fit, or the
/// length if every one fits.
pub open spec fn misfit_from(lexemes: Seq<LexemeView>, start: int) -> int {
    first_where(|position: int| !fits(lexemes, position), start, lexemes.len() as int)
}

/// The helper words of an invocation that fits the grammar: the identifiers
/// at the even positions after the first.
pub open spec fn helper_words(lexemes: Seq<LexemeView>) -> Seq<Seq<char>> {
    Seq::new(((lexemes.len() - 1) / 2) as nat, |k: int| lexemes[2 * k + 2]->Identifier_0)
}

/// What reading the lexemes against the grammar gives: an identifier, then
/// zero or more times a comma and an identifier, then an optional comma. An
/// empty list lacks its first identifier; otherwise the first lexeme that
/// does not fit decides the failure.
pub open spec fn compile_input_of(lexemes: Seq<LexemeView>) -> Result<
    CompileInputView,
    GenErrorView,
> {
    let misfit = misfit_from(lexemes, 0);
    if lexemes.len() == 0 {
        Err(GenErrorView::ExpectedIdentifier { position: 0 })
    } else if misfit < lexemes.len() {
        if misfit % 2 == 0 {
            Err(GenErrorView::ExpectedIdentifier { position: misfit })
        } else {
            Err(GenErrorView::ExpectedComma { position: misfit })
        }
    } else {
        Ok(
            CompileInputView {
                target_type: lexemes[0]->Identifier_0,
                helpers: helper_words(lexemes),
            },
        )
    }
}

/// The helper that a word names, if it is in the vocabulary.
pub open spec fn helper_named(word: Seq<char>) -> Option<Helper> {
    if word == helper_word(Helper::Fields) {
        Some(Helper::Fields)
    } else if word == helper_word(Helper::Methods) {
        Some(Helper::Methods)
    } else if word == helper_word(Helper::Variants) {
        Some(Helper::Variants)
    } else {
        None
    }
}

/// The first index from `start` on whose word is not in the vocabulary, or
/// the length if every word is.
pub open spec fn unknown_from(words: Seq<Seq<char>>, start: int) -> int {
    first_where(|index: int| helper_named(words[index]) is None, start, words.len() as int)
}

/// The helpers that the words name.
pub open spec fn requested_by(words: Seq<Seq<char>>) -> Set<Helper> {
    Set::new(
        |helper: Helper|
            exists|k: int| 0 <= k < words.len() && helper_named(#[trigger] words[k]) == Some(helper),
    )
}

/// What checking an invocation against the vocabulary gives: the selection,
/// or the first word that is not a helper.
pub open spec fn selection_of(input: CompileInputView) -> Result<
    BindingSelectionView,
    GenErrorView,
> {
    let unknown = unknown_from(input.helpers, 0);
    if unknown < input.helpers.len() {
        Err(GenErrorView::UnknownHelper { token: input.helpers[unknown], index: unknown })
    } else {
        Ok(
            BindingSelectionView {
                target_type: input.target_type,
                requested: requested_by(input.helpers),
            },
        )
    }
}

/// The unit of a selection. The field-table builder calls the fields helper
/// if it was asked for. The method-table builder calls the methods helper if
/// it was asked for and then the variants helper if it was asked for:
/// variants are constructors and never go into the field table.
pub open spec fn unit_of(selection: BindingSelectionView) -> RegistrationUnitView {
    RegistrationUnitView {
        target_type: selection.target_type,
        field_table: if selection.requested.contains(Helper::Fields) {
            seq![Helper::Fields]
        } else {
            Seq::empty()
        },
        method_table: (if selection.requested.contains(Helper::Methods) {
            seq![Helper::Methods]
        } else {
            Seq::empty()
        }) + (if selection.requested.contains(Helper::Variants) {
            seq![Helper::Variants]
        } else {
            Seq::empty()
        }),
    }
}

/// The statement that calls a helper routine on the table builder it
/// registers into.
pub open spec fn call_text(helper: Helper) -> Seq<char> {
    "        Self::"@ + routine_name(helper) + "("@ + table_name(helper) + ");\n"@
}

/// The statements that call the helper routines, in order.
pub open spec fn calls_text(helpers: Seq<Helper>) -> Seq<char>
    decreases helpers.len(),
{
    if helpers.len() == 0 {
        Seq::empty()
    } else {
        calls_text(helpers.drop_last()) + call_text(helpers.last())
    }
}

/// The text of a unit: the implementation of the host protocol's
/// object-exposure interface for the target type.
pub open spec fn unit_text(unit: RegistrationUnitView) -> Seq<char> {
    "impl mlua::UserData for "@ + unit.target_type + " {\n"@
        + "    fn add_fields<'lua, F: mlua::UserDataFields<Self>>(fields: &mut F) -> () {\n"@
        + calls_text(unit.field_table) + "    }\n"@ + "\n"@
        + "    fn add_methods<'lua, M: mlua::UserDataMethods<Self>>(methods: &mut M) -> () {\n"@
        + calls_text(unit.method_table) + "    }\n"@ + "}\n"@
}

/// What [`read_invocation`] returns for an invocation that the lexer
/// answered `lexed` for: the invocation as read, or the failure.
pub open spec fn invocation_read(lexed: Result<Seq<TokenView>, Seq<char>>) -> Result<
    CompileInputView,
    GenErrorView,
> {
    match lexed {
        Err(message) => Err(GenErrorView::Syntax { message }),
        Ok(tokens) => compile_input_of(lexemes_of(tokens)),
    }
}

/// What [`compile`] returns for an invocation that the lexer answered `lexed`
/// for: the text of the unit, or the failure.
pub open spec fn compile_text(lexed: Result<Seq<TokenView>, Seq<char>>) -> Result<
    Seq<char>,
    GenErrorView,
> {
    match invocation_read(lexed) {
        Err(e) => Err(e),
        Ok(input) => match selection_of(input) {
            Err(e) => Err(e),
            Ok(selection) => Ok(unit_text(unit_of(selection))),
        },
    }
}

/// The position, among the token trees of an invocation, of the token that
/// a failure is about: the token that does not fit the grammar, or the
/// helper word that is not in the vocabulary. A helper of index `k` is the
/// token of position `2 * k + 2`. Other failures are about no token.
pub open spec fn offending_token(e: GenErrorView) -> Option<int> {
    match e {
        GenErrorView::ExpectedIdentifier { position } => Some(position),
        GenErrorView::ExpectedComma { position } => Some(position),
        GenErrorView::UnknownHelper { index, .. } => Some(2 * index + 2),
        _ => None,
    }
}

/// Scans token trees into lexemes.
pub fn scan(tokens: &Vec<Token>) -> (r: Vec<Lexeme>)
    ensures
        r.deep_view() == lexemes_of(tokens.deep_view()),
{
    let mut out: Vec<Lexeme> = Vec::new();
    let mut i: usize = 0;
    while i < tokens.len()
        invariant
            i <= tokens.len(),
            out.deep_view() == lexemes_of(tokens.deep_view()).take(i as int),
        decreases tokens.len() - i,
    {
        let ghost before = out.deep_view();
        let lexeme = match &tokens[i] {
            Token::Word(text) => if accepts_identifier(text.as_str()) {
                Lexeme::Identifier(text.clone())
            } else {
                Lexeme::Other
            },
            Token::Punct(c) => if *c == ',' {
                Lexeme::Comma
            } else {
                Lexeme::Other
            },
            _ => Lexeme::Other,
        };
        out.push(lexeme);
        assert(out.deep_view() =~= before.push(lexeme.deep_view()));
        i += 1;
    }
    out
}

impl CompileInput {
    /// Reads an invocation: an identifier, then zero or more times a comma
    /// and an identifier; a trailing comma is permitted.
    pub fn parse(lexemes: &Vec<Lexeme>) -> (r: Result<CompileInput, GenError>)
        ensures
            produced(r) == compile_input_of(lexemes.deep_view()),
    {
        let ghost all = lexemes.deep_view();
        if lexemes.len() == 0 {
            return Err(GenError::ExpectedIdentifier { position: 0 });
        }
        let target_type = match &lexemes[0] {
            Lexeme::Identifier(text) => text.clone(),
            _ => {
                return Err(GenError::ExpectedIdentifier { position: 0 });
            },
        };
        let mut helpers: Vec<String> = Vec::new();
        let mut i: usize = 1;
        while i < lexemes.len()
            invariant
                1 <= i <= lexemes.len(),
                all == lexemes.deep_view(),
                misfit_from(all, 0) == misfit_from(all, i as int),
                helpers.deep_view() == Seq::new(
                    ((i - 1) / 2) as nat,
                    |k: int| all[2 * k + 2]->Identifier_0,
                ),
            decreases lexemes.len() - i,
        {
            if i % 2 == 1 {
                match &lexemes[i] {
                    Lexeme::Comma => {},
                    _ => {
                        return Err(GenError::ExpectedComma { position: i });
                    },
                }
            } else {
                let ghost before = helpers.deep_view();
                match &lexemes[i] {
                    Lexeme::Identifier(text) => {
                        let word = text.clone();
                        helpers.push(word);
                        assert(helpers.deep_view() =~= before.push(word@));
                    },
                    _ => {
                        return Err(GenError::ExpectedIdentifier { position: i });
                    },
                }
            }
            i += 1;
        }
        Ok(CompileInput { target_type, helpers })
    }
}

/// Checks the helper words of an invocation against the vocabulary and
/// collects the set of helpers asked for.
pub fn select_helpers(input: &CompileInput) -> (r: Result<BindingSelection, GenError>)
    ensures
        produced(r) == selection_of(input.deep_view()),
{
    let ghost words = input.helpers.deep_view();
    let fields_word = String::from_str(helper_word_of(Helper::Fields));
    let methods_word = String::from_str(helper_word_of(Helper::Methods));
    let variants_word = String::from_str(helper_word_of(Helper::Variants));
    let mut fields = false;
    let mut methods = false;
    let mut variants = false;
    let mut i: usize = 0;
    while i < input.helpers.len()
        invariant
            i <= input.helpers.len(),
            words == input.helpers.deep_view(),
            fields_word@ == helper_word(Helper::Fields),
            methods_word@ == helper_word(Helper::Methods),
            variants_word@ == helper_word(Helper::Variants),
            unknown_from(words, 0) == unknown_from(words, i as int),
            fields <==> exists|k: int|
                0 <= k < i && helper_named(#[trigger] words[k]) == Some(Helper::Fields),
            methods <==> exists|k: int|
                0 <= k < i && helper_named(#[trigger] words[k]) == Some(Helper::Methods),
            variants <==> exists|k: int|
                0 <= k < i && helper_named(#[trigger] words[k]) == Some(Helper::Variants),
        decreases input.helpers.len() - i,
    {
        let word = &input.helpers[i];
        if *word == fields_word {
            fields = true;
        } else if *word == methods_word {
            methods = true;
        } else if *word == variants_word {
            variants = true;
        } else {
            return Err(GenError::UnknownHelper { token: word.clone(), index: i });
        }
        i += 1;
    }
    let selection = BindingSelection {
        target_type: input.target_type.clone(),
        fields,
        methods,
        variants,
    };
    assert(selection.deep_view().requested =~= requested_by(words));
    Ok(selection)
}

/// Assembles the unit of a selection.
pub fn assemble(selection: &BindingSelection) -> (r: RegistrationUnit)
    ensures
        r.deep_view() == unit_of(selection.deep_view()),
{
    let mut field_table: Vec<Helper> = Vec::new();
    let mut method_table: Vec<Helper> = Vec::new();
    if selection.fields {
        field_table.push(Helper::Fields);
    }
    if selection.methods {
        method_table.push(Helper::Methods);
    }
    if selection.variants {
        method_table.push(Helper::Variants);
    }
    let unit = RegistrationUnit {
        target_type: selection.target_type.clone(),
        field_table,
        method_table,
    };
    assert(unit.deep_view().method_table =~= unit_of(selection.deep_view()).method_table);
    unit
}

/// Writes the statements that call the helper routines, in order.
pub fn render_calls(helpers: &Vec<Helper>) -> (r: String)
    ensures
        r@ == calls_text(helpers@),
{
    let mut out = String::new();
    let mut i: usize = 0;
    while i < helpers.len()
        invariant
            i <= helpers.len(),
            out@ == calls_text(helpers@.take(i as int)),
        decreases helpers.len() - i,
    {
        let helper = helpers[i];
        let mut line = String::from_str("        Self::");
        line.append(routine_name_of(helper));
        line.append("(");
        line.append(table_name_of(helper));
        line.append(");\n");
        out.append(line.as_str());
        proof {
            assert(helpers@.take(i + 1).drop_last() =~= helpers@.take(i as int));
        }
        i += 1;
    }
    proof {
        assert(helpers@.take(helpers.len() as int) =~= helpers@);
    }
    out
}

/// Writes the text of a unit.
pub fn render_unit(unit: &RegistrationUnit) -> (r: String)
    ensures
        r@ == unit_text(unit.deep_view()),
{
    let field_calls = render_calls(&unit.field_table);
    let method_calls = render_calls(&unit.method_table);
    let mut out = String::from_str("impl mlua::UserData for ");
    out.append(unit.target_type.as_str());
    out.append(" {\n");
    out.append("    fn add_fields<'lua, F: mlua::UserDataFields<Self>>(fields: &mut F) -> () {\n");
    out.append(field_calls.as_str());
    out.append("    }\n");
    out.append("\n");
    out.append(
        "    fn add_methods<'lua, M: mlua::UserDataMethods<Self>>(methods: &mut M) -> () {\n",
    );
    out.append(method_calls.as_str());
    out.append("    }\n");
    out.append("}\n");
    out
}

/// Gives the position of the token that a failure is about, for a
/// diagnostic to be placed there; nothing if the failure is about no token
/// or the position is beyond what a `usize` holds.
pub fn offending_token_of(e: &GenError) -> (r: Option<usize>)
    ensures
        r == (match offending_token(e.deep_view()) {
            Some(position) => if position <= usize::MAX {
                Some(position as usize)
            } else {
                None
            },
            None => None,
        }),
{
    match e {
        GenError::ExpectedIdentifier { position } => Some(*position),
        GenError::ExpectedComma { position } => Some(*position),
        GenError::UnknownHelper { index, .. } => if *index <= (usize::MAX - 2) / 2 {
            Some(2 * *index + 2)
        } else {
            None
        },
        _ => None,
    }
}

/// Reads an invocation given as source text, `TypeName, helper, helper,
/// ...`. Fails if the text does not lex or does not fit the grammar.
pub fn read_invocation(item: &str) -> (r: Result<CompileInput, GenError>)
    ensures
        produced(r) == invocation_read(token_trees(item@)),
{
    match lex(item) {
        Err(e) => Err(GenError::Syntax { message: e.message }),
        Ok(tokens) => {
            let lexemes = scan(&tokens);
            CompileInput::parse(&lexemes)
        },
    }
}

/// Assembles the registration unit of a type from an invocation given as
/// source text, `TypeName, helper, helper, ...`. Fails, generating nothing,
/// if the text does not lex, does not fit the grammar, or asks for a helper
/// that is not `fields`, `methods` or `variants`.
pub fn compile(item: &str) -> (r: Result<String, GenError>)
    ensures
        produced(r) == compile_text(token_trees(item@)),
{
    match read_invocation(item) {
        Err(e) => Err(e),
        Ok(input) => match select_helpers(&input) {
            Err(e) => Err(e),
            Ok(selection) => {
                let unit = assemble(&selection);
                Ok(render_unit(&unit))
            },
        },
    }
}

/// An invocation is read if and only if it is not empty and holds an
/// identifier at every even position and a comma at every odd one. The
/// target type is then its first identifier, and the helper words are the
/// identifiers after it, in order. Otherwise the failure points at the first
/// position that holds something else, or at the start of an empty
/// invocation.
pub proof fn invocation_read_iff_fits(lexemes: Seq<LexemeView>)
    ensures
        compile_input_of(lexemes) is Ok <==> lexemes.len() > 0 && forall|position: int|
            0 <= position < lexemes.len() ==> #[trigger] fits(lexemes, position),
        compile_input_of(lexemes) matches Ok(input) ==> {
            &&& lexemes[0] == LexemeView::Identifier(input.target_type)
            &&& input.helpers.len() == (lexemes.len() - 1) / 2
            &&& forall|k: int|
                0 <= k < input.helpers.len() ==> lexemes[2 * k + 2] == LexemeView::Identifier(
                    #[trigger] input.helpers[k],
                )
        },
        compile_input_of(lexemes) matches Err(e) ==> {
            ||| e == (GenErrorView::ExpectedIdentifier { position: 0 }) && lexemes.len() == 0
            ||| e matches GenErrorView::ExpectedIdentifier { position } && 0 <= position
                < lexemes.len() && position % 2 == 0 && !(lexemes[position] is Identifier)
                && forall|earlier: int| 0 <= earlier < position ==> #[trigger] fits(lexemes, earlier)
            ||| e matches GenErrorView::ExpectedComma { position } && 0 <= position
                < lexemes.len() && position % 2 == 1 && !(lexemes[position] is Comma)
                && forall|earlier: int| 0 <= earlier < position ==> #[trigger] fits(lexemes, earlier)
        },
{
    let misfits = |position: int| !fits(lexemes, position);
    first_where_is_least(misfits, 0, lexemes.len() as int);
    let misfit = misfit_from(lexemes, 0);
    assert forall|position: int| 0 <= position < misfit implies #[trigger] fits(
        lexemes,
        position,
    ) by {
        assert(!misfits(position));
    }
    if compile_input_of(lexemes) is Ok {
        assert forall|k: int| 0 <= k < helper_words(lexemes).len() implies lexemes[2 * k + 2]
            == LexemeView::Identifier(#[trigger] helper_words(lexemes)[k]) by {
            assert(fits(lexemes, 2 * k + 2));
        }
    }
}

/// An invocation is accepted if and only if every one of its helper words is
/// in the vocabulary. Otherwise the failure names the first word that is
/// not.
pub proof fn selection_made_iff_known(input: CompileInputView)
    ensures
        selection_of(input) is Ok <==> forall|k: int|
            0 <= k < input.helpers.len() ==> helper_named(#[trigger] input.helpers[k]) is Some,
        selection_of(input) matches Err(e) ==> {
            &&& e matches GenErrorView::UnknownHelper { token, index }
            &&& 0 <= index < input.helpers.len()
            &&& token == input.helpers[index]
            &&& helper_named(token) is None
            &&& forall|k: int| 0 <= k < index ==> helper_named(#[trigger] input.helpers[k]) is Some
        },
{
    let unknown_at = |index: int| helper_named(input.helpers[index]) is None;
    first_where_is_least(unknown_at, 0, input.helpers.len() as int);
    let unknown = unknown_from(input.helpers, 0);
    assert forall|k: int| 0 <= k < unknown implies helper_named(
        #[trigger] input.helpers[k],
    ) is Some by {
        assert(!unknown_at(k));
    }
}

/// A failure of an invocation points at the token it is about. If the
/// lexemes do not fit the grammar, that is the first lexeme that does not
/// fit, or the start of an empty invocation. If they do and a helper word is
/// not in the vocabulary, it is the lexeme that holds the first such word.
pub proof fn failure_points_at_its_token(lexemes: Seq<LexemeView>)
    ensures
        compile_input_of(lexemes) matches Err(e) ==> offending_token(e) matches Some(position)
            && 0 <= position <= lexemes.len() && (position < lexemes.len() ==> !fits(
            lexemes,
            position,
        )),
        compile_input_of(lexemes) matches Ok(input) ==> (selection_of(input) matches Err(e)
            ==> offending_token(e) matches Some(position) && e matches GenErrorView::UnknownHelper {
            token,
            ..
        } && 0 <= position < lexemes.len() && lexemes[position] == LexemeView::Identifier(token)),
{
    invocation_read_iff_fits(lexemes);
    match compile_input_of(lexemes) {
        Ok(input) => {
            selection_made_iff_known(input);
        },
        Err(_) => {},
    }
}

/// The unit of a selection calls exactly the helpers that were asked for:
/// the fields helper, and no other, from its field-table builder; the
/// methods helper and the variants helper, and not the fields helper, from
/// its method-table builder.
pub proof fn unit_calls_what_was_asked(selection: BindingSelectionView)
    ensures
        forall|helper: Helper| #[trigger]
            unit_of(selection).field_table.contains(helper) <==> helper == Helper::Fields
                && selection.requested.contains(helper),
        forall|helper: Helper| #[trigger]
            unit_of(selection).method_table.contains(helper) <==> helper != Helper::Fields
                && selection.requested.contains(helper),
{
    let unit = unit_of(selection);
    assert forall|helper: Helper| #[trigger]
        unit.field_table.contains(helper) <==> helper == Helper::Fields
            && selection.requested.contains(helper) by {
        if selection.requested.contains(Helper::Fields) {
            assert(unit.field_table[0] == Helper::Fields);
        }
    }
    assert forall|helper: Helper| #[trigger]
        unit.method_table.contains(helper) <==> helper != Helper::Fields
            && selection.requested.contains(helper) by {
        let methods = selection.requested.contains(Helper::Methods);
        let variants = selection.requested.contains(Helper::Variants);
        if methods {
            assert(unit.method_table[0] == Helper::Methods);
        }
        if variants {
            assert(unit.method_table[unit.method_table.len() - 1] == Helper::Variants);
        }
    }
}

/// The vocabulary is the three helper words: each names its helper, and no
/// other word names one.
pub proof fn vocabulary_is_the_helper_words()
    ensures
        forall|helper: Helper| helper_named(#[trigger] helper_word(helper)) == Some(helper),
        forall|word: Seq<char>, helper: Helper|
            #[trigger] helper_named(word) == Some(helper) ==> word == #[trigger] helper_word(helper),
{
    reveal_strlit("fields");
    reveal_strlit("methods");
    reveal_strlit("variants");
    assert("methods"@.len() == 7);
    assert("variants"@.len() == 8);
}

} // verus!
