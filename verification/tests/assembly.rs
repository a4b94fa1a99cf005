use mlua_magic_macros::assembly::{
    assemble, compile, offending_token_of, read_invocation, render_calls, render_unit, scan,
    select_helpers, BindingSelection, CompileInput, Lexeme, RegistrationUnit,
};
use mlua_magic_macros::model::{GenError, Helper};
use mlua_magic_macros::render::{render_entry, render_names, render_types};
use mlua_magic_macros::model::{EntryKind, Parameter, Registration};
use mlua_magic_macros::syntax::Token;

fn word(text: &str) -> Lexeme {
    Lexeme::Identifier(text.to_string())
}

fn input(target_type: &str, helpers: &[&str]) -> CompileInput {
    CompileInput {
        target_type: target_type.to_string(),
        helpers: helpers.iter().map(|h| h.to_string()).collect(),
    }
}

fn selection(target_type: &str, fields: bool, methods: bool, variants: bool) -> BindingSelection {
    BindingSelection { target_type: target_type.to_string(), fields, methods, variants }
}

#[test]
fn compile_fields_and_methods_omits_variants() {
    let text = compile("TypeName, fields, methods").unwrap();
    assert_eq!(
        text,
        "impl mlua::UserData for TypeName {
    fn add_fields<'lua, F: mlua::UserDataFields<Self>>(fields: &mut F) -> () {
        Self::_to_mlua_fields(fields);
    }

    fn add_methods<'lua, M: mlua::UserDataMethods<Self>>(methods: &mut M) -> () {
        Self::_to_mlua_methods(methods);
    }
}
"
    );
    assert!(!text.contains("_to_mlua_variants"));
}

#[test]
fn compile_bogus_helper_fails_and_emits_nothing() {
    let failed = compile("TypeName, fields, bogus");
    assert_eq!(failed, Err(GenError::UnknownHelper { token: "bogus".to_string(), index: 1 }));
    assert_eq!(
        failed.unwrap_err().message(),
        "Unknown helper `bogus`: expected 'fields', 'methods', or 'variants'"
    );
}

#[test]
fn compile_all_helpers_in_any_order_with_trailing_comma() {
    let expected = "impl mlua::UserData for Status {
    fn add_fields<'lua, F: mlua::UserDataFields<Self>>(fields: &mut F) -> () {
        Self::_to_mlua_fields(fields);
    }

    fn add_methods<'lua, M: mlua::UserDataMethods<Self>>(methods: &mut M) -> () {
        Self::_to_mlua_methods(methods);
        Self::_to_mlua_variants(methods);
    }
}
";
    assert_eq!(compile("Status, variants, methods, fields,").unwrap(), expected);
    assert_eq!(compile("Status,fields,methods,variants").unwrap(), expected);
    assert_eq!(compile(" Status , fields , fields , variants , methods ").unwrap(), expected);
}

#[test]
fn compile_without_helpers_registers_nothing() {
    let expected = "impl mlua::UserData for Status {
    fn add_fields<'lua, F: mlua::UserDataFields<Self>>(fields: &mut F) -> () {
    }

    fn add_methods<'lua, M: mlua::UserDataMethods<Self>>(methods: &mut M) -> () {
    }
}
";
    assert_eq!(compile("Status").unwrap(), expected);
    assert_eq!(compile("Status,").unwrap(), expected);
}

#[test]
fn compile_grammar_failures() {
    assert_eq!(compile(""), Err(GenError::ExpectedIdentifier { position: 0 }));
    assert_eq!(compile(", fields"), Err(GenError::ExpectedIdentifier { position: 0 }));
    assert_eq!(compile("Player fields"), Err(GenError::ExpectedComma { position: 1 }));
    assert_eq!(compile("Player,, fields"), Err(GenError::ExpectedIdentifier { position: 2 }));
    assert_eq!(compile("Player, fields methods"), Err(GenError::ExpectedComma { position: 3 }));
    assert_eq!(compile("Player, \"fields\""), Err(GenError::ExpectedIdentifier { position: 2 }));
    assert_eq!(compile("Player, (fields)"), Err(GenError::ExpectedIdentifier { position: 2 }));
    assert_eq!(compile("Player; fields"), Err(GenError::ExpectedComma { position: 1 }));
}

#[test]
fn compile_keywords_are_no_identifiers() {
    assert_eq!(compile("struct, fields"), Err(GenError::ExpectedIdentifier { position: 0 }));
    assert_eq!(compile("Player, fn"), Err(GenError::ExpectedIdentifier { position: 2 }));
    assert_eq!(compile("Player, _"), Err(GenError::ExpectedIdentifier { position: 2 }));
    assert_eq!(
        compile("Player, r#fn"),
        Err(GenError::UnknownHelper { token: "r#fn".to_string(), index: 0 })
    );
}

#[test]
fn compile_grammar_is_checked_before_the_vocabulary() {
    assert_eq!(compile("Player, bogus fields"), Err(GenError::ExpectedComma { position: 3 }));
    assert_eq!(
        compile("Player, bogus, other"),
        Err(GenError::UnknownHelper { token: "bogus".to_string(), index: 0 })
    );
}

#[test]
fn compile_fails_on_text_that_does_not_lex() {
    let failed = compile("Player, (fields");
    assert_eq!(
        failed,
        Err(GenError::Syntax { message: "cannot parse string into token stream".to_string() })
    );
    assert_eq!(failed.unwrap_err().message(), "cannot parse string into token stream");
}

#[test]
fn read_invocation_splits_target_and_helpers() {
    assert_eq!(read_invocation("Player, fields, methods"), Ok(input("Player", &["fields", "methods"])));
    assert_eq!(read_invocation("Player, anything,"), Ok(input("Player", &["anything"])));
    assert_eq!(read_invocation("Player"), Ok(input("Player", &[])));
}

#[test]
fn scan_tells_identifiers_commas_and_the_rest() {
    let tokens = vec![
        Token::Word("Player".to_string()),
        Token::Punct(','),
        Token::Word("fn".to_string()),
        Token::Punct(';'),
        Token::Literal("1".to_string()),
        Token::Group("(fields)".to_string()),
        Token::Word("r#fn".to_string()),
        Token::Word("_".to_string()),
    ];
    assert_eq!(
        scan(&tokens),
        vec![
            word("Player"),
            Lexeme::Comma,
            Lexeme::Other,
            Lexeme::Other,
            Lexeme::Other,
            Lexeme::Other,
            word("r#fn"),
            Lexeme::Other,
        ]
    );
}

#[test]
fn parse_reads_identifiers_at_even_positions() {
    let lexemes = vec![word("Player"), Lexeme::Comma, word("fields"), Lexeme::Comma, word("methods")];
    assert_eq!(CompileInput::parse(&lexemes), Ok(input("Player", &["fields", "methods"])));
}

#[test]
fn parse_permits_one_trailing_comma() {
    let lexemes = vec![word("Player"), Lexeme::Comma, word("fields"), Lexeme::Comma];
    assert_eq!(CompileInput::parse(&lexemes), Ok(input("Player", &["fields"])));
    let doubled = vec![word("Player"), Lexeme::Comma, Lexeme::Comma];
    assert_eq!(CompileInput::parse(&doubled), Err(GenError::ExpectedIdentifier { position: 2 }));
}

#[test]
fn parse_first_misfit_decides() {
    assert_eq!(CompileInput::parse(&vec![]), Err(GenError::ExpectedIdentifier { position: 0 }));
    assert_eq!(
        CompileInput::parse(&vec![Lexeme::Other, Lexeme::Other]),
        Err(GenError::ExpectedIdentifier { position: 0 })
    );
    assert_eq!(
        CompileInput::parse(&vec![word("a"), word("b"), Lexeme::Other]),
        Err(GenError::ExpectedComma { position: 1 })
    );
    assert_eq!(
        CompileInput::parse(&vec![word("a"), Lexeme::Comma, word("b"), Lexeme::Other, Lexeme::Comma]),
        Err(GenError::ExpectedComma { position: 3 })
    );
}

#[test]
fn select_helpers_collects_the_set() {
    assert_eq!(
        select_helpers(&input("Player", &["fields", "methods"])),
        Ok(selection("Player", true, true, false))
    );
    assert_eq!(
        select_helpers(&input("Status", &["variants", "variants"])),
        Ok(selection("Status", false, false, true))
    );
    assert_eq!(select_helpers(&input("Status", &[])), Ok(selection("Status", false, false, false)));
}

#[test]
fn select_helpers_first_unknown_word_decides() {
    assert_eq!(
        select_helpers(&input("Player", &["fields", "Fields", "bogus"])),
        Err(GenError::UnknownHelper { token: "Fields".to_string(), index: 1 })
    );
    assert_eq!(
        select_helpers(&input("Player", &[""])),
        Err(GenError::UnknownHelper { token: "".to_string(), index: 0 })
    );
}

#[test]
fn assemble_puts_variants_into_the_method_table() {
    assert_eq!(
        assemble(&selection("Status", false, false, true)),
        RegistrationUnit {
            target_type: "Status".to_string(),
            field_table: vec![],
            method_table: vec![Helper::Variants],
        }
    );
    assert_eq!(
        assemble(&selection("Status", true, true, true)),
        RegistrationUnit {
            target_type: "Status".to_string(),
            field_table: vec![Helper::Fields],
            method_table: vec![Helper::Methods, Helper::Variants],
        }
    );
    assert_eq!(
        assemble(&selection("Status", true, false, false)),
        RegistrationUnit {
            target_type: "Status".to_string(),
            field_table: vec![Helper::Fields],
            method_table: vec![],
        }
    );
}

#[test]
fn render_calls_one_statement_per_helper() {
    assert_eq!(render_calls(&vec![]), "");
    assert_eq!(
        render_calls(&vec![Helper::Fields, Helper::Methods, Helper::Variants]),
        "        Self::_to_mlua_fields(fields);
        Self::_to_mlua_methods(methods);
        Self::_to_mlua_variants(methods);
"
    );
}

#[test]
fn render_unit_exact_text() {
    let unit = RegistrationUnit {
        target_type: "Status".to_string(),
        field_table: vec![],
        method_table: vec![Helper::Variants],
    };
    assert_eq!(
        render_unit(&unit),
        "impl mlua::UserData for Status {
    fn add_fields<'lua, F: mlua::UserDataFields<Self>>(fields: &mut F) -> () {
    }

    fn add_methods<'lua, M: mlua::UserDataMethods<Self>>(methods: &mut M) -> () {
        Self::_to_mlua_variants(methods);
    }
}
"
    );
}

#[test]
fn render_names_and_types_of_parameters() {
    let none: Vec<Parameter> = vec![];
    let one = vec![Parameter { name: "a".to_string(), declared_type: "u8".to_string() }];
    let two = vec![
        Parameter { name: "a".to_string(), declared_type: "u8".to_string() },
        Parameter { name: "b".to_string(), declared_type: "& str".to_string() },
    ];
    assert_eq!(render_names(&none), "");
    assert_eq!(render_types(&none), "");
    assert_eq!(render_names(&one), "a,");
    assert_eq!(render_types(&one), "u8,");
    assert_eq!(render_names(&two), "a, b,");
    assert_eq!(render_types(&two), "u8, & str,");
}

#[test]
fn render_entry_of_each_kind() {
    let parameters = vec![Parameter { name: "by".to_string(), declared_type: "i64".to_string() }];
    let entry = |kind: EntryKind| Registration {
        key: "step".to_string(),
        kind,
        parameters: parameters.clone(),
    };
    assert_eq!(
        render_entry("Counter", &entry(EntryKind::Getter)),
        "        fields.add_field_method_get(\"step\", |_, this| { return Ok(this.step.clone()); });\n"
    );
    assert_eq!(
        render_entry("Counter", &entry(EntryKind::Constructor)),
        "        methods.add_function(\"step\", |_, (): ()| { Ok(Counter::step) });\n"
    );
    assert_eq!(
        render_entry("Counter", &entry(EntryKind::StaticCall)),
        "        methods.add_function(\"step\", |_, (by,): (i64,)| { Ok(Counter::step(by,)) });\n"
    );
    assert_eq!(
        render_entry("Counter", &entry(EntryKind::ReadCall)),
        "        methods.add_method(\"step\", |_, this, (by,): (i64,)| { Ok(this.step(by,)) });\n"
    );
    assert_eq!(
        render_entry("Counter", &entry(EntryKind::MutatingCall)),
        "        methods.add_method_mut(\"step\", |_, this, (by,): (i64,)| { Ok(this.step(by,)) });\n"
    );
}

#[test]
fn message_of_each_failure() {
    assert_eq!(GenError::Syntax { message: "expected `struct`".to_string() }.message(), "expected `struct`");
    assert_eq!(GenError::UnnamedField { position: 3 }.message(), "Field must have a name");
    assert_eq!(GenError::ExpectedIdentifier { position: 0 }.message(), "expected identifier");
    assert_eq!(GenError::ExpectedComma { position: 1 }.message(), "expected `,`");
    assert_eq!(
        GenError::UnknownHelper { token: "setters".to_string(), index: 2 }.message(),
        "Unknown helper `setters`: expected 'fields', 'methods', or 'variants'"
    );
}

#[test]
fn offending_token_of_grammar_failures_is_their_position() {
    assert_eq!(offending_token_of(&GenError::ExpectedIdentifier { position: 0 }), Some(0));
    assert_eq!(offending_token_of(&GenError::ExpectedComma { position: 3 }), Some(3));
    assert_eq!(offending_token_of(&compile("Player fields").unwrap_err()), Some(1));
    assert_eq!(offending_token_of(&compile("Player,, fields").unwrap_err()), Some(2));
}

#[test]
fn offending_token_of_unknown_helper_is_the_token_of_the_word() {
    // tokens: TypeName , fields , bogus
    assert_eq!(offending_token_of(&compile("TypeName, fields, bogus").unwrap_err()), Some(4));
    assert_eq!(offending_token_of(&compile("TypeName, bogus, fields").unwrap_err()), Some(2));
    assert_eq!(
        offending_token_of(&GenError::UnknownHelper { token: "x".to_string(), index: 10 }),
        Some(22)
    );
}

#[test]
fn offending_token_of_other_failures_is_none() {
    assert_eq!(offending_token_of(&GenError::Syntax { message: "no".to_string() }), None);
    assert_eq!(offending_token_of(&GenError::UnnamedField { position: 1 }), None);
    assert_eq!(
        offending_token_of(&GenError::MissingHelper {
            target_type: "Player".to_string(),
            helper: Helper::Fields,
        }),
        None
    );
}

#[test]
fn offending_token_of_a_position_too_large_is_none() {
    assert_eq!(
        offending_token_of(&GenError::UnknownHelper { token: "x".to_string(), index: usize::MAX }),
        None
    );
    assert_eq!(
        offending_token_of(&GenError::UnknownHelper {
            token: "x".to_string(),
            index: (usize::MAX - 2) / 2,
        }),
        Some(2 * ((usize::MAX - 2) / 2) + 2)
    );
}
