use cool::language::Cool;
use cool::sexp::case::RenameRule;
use cool::sexp::symbol::{Style, Symbol};
use cool::token::{Token, TokenKind};

#[test]
fn only_the_last_token_kind_ends_the_source() {
    assert!(TokenKind::Eof.is_eof());
    assert!(!TokenKind::Class.is_eof());
    assert!(!TokenKind::Whitespace.is_eof());
    assert!(!TokenKind::Identifer.is_eof());
}

#[test]
fn a_token_keeps_what_it_was_made_of() {
    let token = Token::new(TokenKind::Plus, 7, 1);
    assert_eq!(token.kind, TokenKind::Plus);
    assert_eq!(token.kind(), TokenKind::Plus);
    assert_eq!(token.pos(), 7);
    assert_eq!(token.len(), 1);
}

#[test]
fn rules_are_found_by_their_names() {
    assert_eq!(RenameRule::from_str("lowercase").ok(), Some(RenameRule::LowerCase));
    assert_eq!(RenameRule::from_str("UPPERCASE").ok(), Some(RenameRule::UpperCase));
    assert_eq!(RenameRule::from_str("PascalCase").ok(), Some(RenameRule::PascalCase));
    assert_eq!(RenameRule::from_str("camelCase").ok(), Some(RenameRule::CamelCase));
    assert_eq!(
        RenameRule::from_str("SCREAMING_SNAKE_CASE").ok(),
        Some(RenameRule::ScreamingSnakeCase)
    );
    assert_eq!(RenameRule::from_str("snake_case").ok(), Some(RenameRule::SnakeCase));
    assert_eq!(RenameRule::from_str("kebab-case").ok(), Some(RenameRule::KebabCase));
    assert_eq!(
        RenameRule::from_str("SCREAMING-KEBAB-CASE").ok(),
        Some(RenameRule::ScreamingKebabCase)
    );
}

#[test]
fn other_texts_name_no_rule() {
    match RenameRule::from_str("Snake_Case") {
        Ok(rule) => panic!("a rule: {:?}", rule),
        Err(error) => assert_eq!(error.0, "Snake_Case"),
    }
    assert!(RenameRule::from_str("snakecase").is_err());
    assert!(RenameRule::from_str("").is_err());
    assert!(RenameRule::from_str("Lowercase").is_err());
    assert!(RenameRule::from_str("lowercase ").is_err());
}

#[test]
fn the_rule_by_default_keeps_names() {
    assert_eq!(RenameRule::default(), RenameRule::Exact);
}

#[test]
fn symbols_and_styles() {
    assert_eq!(Symbol("rename").0, "rename");
    assert_ne!(Style::Unit, Style::NewType);
}

#[test]
fn kinds_are_numbered_as_the_grammar_numbers_them() {
    assert_eq!(Cool::from(0), Cool::End);
    assert_eq!(Cool::from(1), Cool::Class);
    assert_eq!(Cool::from(39), Cool::Plus);
    assert_eq!(Cool::from(45), Cool::IntegerLiteral);
    assert_eq!(Cool::from(59), Cool::Error);
    assert_eq!(Cool::from(60), Cool::SourceFile);
    assert_eq!(Cool::from(101), Cool::FieldIdentifier);
    assert_eq!(Cool::from(102), Cool::Error);
    assert_eq!(Cool::from(65535), Cool::Error);
}

#[test]
fn expressions_are_told_from_other_kinds() {
    assert!(Cool::Block.is_expr());
    assert!(Cool::BinaryExpression.is_expr());
    assert!(Cool::IsvoidExpression.is_expr());
    assert!(Cool::NotExpression.is_expr());
    assert!(Cool::UnaryExpression.is_expr());
    assert!(Cool::StringLiteral.is_expr());
    assert!(Cool::BooleanLiteral.is_expr());
    assert!(Cool::IntegerLiteral.is_expr());
    assert!(!Cool::MethodDeclaration.is_expr());
    assert!(!Cool::AttributeDeclaration.is_expr());
    assert!(!Cool::CasePattern.is_expr());
    assert!(!Cool::CaseArm.is_expr());
    assert!(!Cool::Arguments.is_expr());
    assert!(!Cool::StringContent.is_expr());
    assert!(!Cool::Identifier.is_expr());
    assert!(!Cool::SourceFile.is_expr());
}

#[test]
fn variants_are_renamed() {
    let name = "MyEnumVariant";
    assert_eq!(RenameRule::Exact.apply_to_variant(name), "MyEnumVariant");
    assert_eq!(RenameRule::PascalCase.apply_to_variant(name), "MyEnumVariant");
    assert_eq!(RenameRule::LowerCase.apply_to_variant(name), "myenumvariant");
    assert_eq!(RenameRule::UpperCase.apply_to_variant(name), "MYENUMVARIANT");
    assert_eq!(RenameRule::CamelCase.apply_to_variant(name), "myEnumVariant");
    assert_eq!(RenameRule::SnakeCase.apply_to_variant(name), "my_enum_variant");
    assert_eq!(RenameRule::ScreamingSnakeCase.apply_to_variant(name), "MY_ENUM_VARIANT");
    assert_eq!(RenameRule::KebabCase.apply_to_variant(name), "my-enum-variant");
    assert_eq!(RenameRule::ScreamingKebabCase.apply_to_variant(name), "MY-ENUM-VARIANT");
}

#[test]
fn short_and_odd_variants_are_renamed() {
    assert_eq!(RenameRule::SnakeCase.apply_to_variant("A"), "a");
    assert_eq!(RenameRule::SnakeCase.apply_to_variant("AB"), "a_b");
    assert_eq!(RenameRule::SnakeCase.apply_to_variant(""), "");
    assert_eq!(RenameRule::SnakeCase.apply_to_variant("Z42"), "z42");
    assert_eq!(RenameRule::CamelCase.apply_to_variant("A"), "a");
    assert_eq!(RenameRule::CamelCase.apply_to_variant("already"), "already");
    assert_eq!(RenameRule::KebabCase.apply_to_variant("With_Underscore"), "with--underscore");
    assert_eq!(RenameRule::LowerCase.apply_to_variant("\u{c9}cole"), "\u{c9}cole");
    assert_eq!(RenameRule::SnakeCase.apply_to_variant("a\u{c9}b"), "a_\u{c9}b");
    assert_eq!(RenameRule::UpperCase.apply_to_variant("stra\u{df}e"), "STRA\u{df}E");
}

#[test]
fn fields_are_renamed() {
    let name = "my_field_name";
    assert_eq!(RenameRule::Exact.apply_to_field(name), "my_field_name");
    assert_eq!(RenameRule::LowerCase.apply_to_field(name), "my_field_name");
    assert_eq!(RenameRule::SnakeCase.apply_to_field(name), "my_field_name");
    assert_eq!(RenameRule::UpperCase.apply_to_field(name), "MY_FIELD_NAME");
    assert_eq!(RenameRule::ScreamingSnakeCase.apply_to_field(name), "MY_FIELD_NAME");
    assert_eq!(RenameRule::PascalCase.apply_to_field(name), "MyFieldName");
    assert_eq!(RenameRule::CamelCase.apply_to_field(name), "myFieldName");
    assert_eq!(RenameRule::KebabCase.apply_to_field(name), "my-field-name");
    assert_eq!(RenameRule::ScreamingKebabCase.apply_to_field(name), "MY-FIELD-NAME");
}

#[test]
fn underscores_in_odd_places() {
    assert_eq!(RenameRule::PascalCase.apply_to_field("_leading"), "Leading");
    assert_eq!(RenameRule::PascalCase.apply_to_field("trailing_"), "Trailing");
    assert_eq!(RenameRule::PascalCase.apply_to_field("a__b"), "AB");
    assert_eq!(RenameRule::PascalCase.apply_to_field("_"), "");
    assert_eq!(RenameRule::PascalCase.apply_to_field(""), "");
    assert_eq!(RenameRule::PascalCase.apply_to_field("x1_y2"), "X1Y2");
    assert_eq!(RenameRule::CamelCase.apply_to_field("_x"), "x");
    assert_eq!(RenameRule::KebabCase.apply_to_field("__"), "--");
    assert_eq!(RenameRule::UpperCase.apply_to_field(""), "");
}

#[test]
fn keywords_are_told_from_other_words() {
    assert_eq!(TokenKind::keyword("class"), Some(TokenKind::Class));
    assert_eq!(TokenKind::keyword("else"), Some(TokenKind::Else));
    assert_eq!(TokenKind::keyword("false"), Some(TokenKind::False));
    assert_eq!(TokenKind::keyword("fi"), Some(TokenKind::Fi));
    assert_eq!(TokenKind::keyword("if"), Some(TokenKind::If));
    assert_eq!(TokenKind::keyword("in"), Some(TokenKind::In));
    assert_eq!(TokenKind::keyword("inherits"), Some(TokenKind::Inherits));
    assert_eq!(TokenKind::keyword("isvoid"), Some(TokenKind::IsVoid));
    assert_eq!(TokenKind::keyword("let"), Some(TokenKind::Let));
    assert_eq!(TokenKind::keyword("loop"), Some(TokenKind::Loop));
    assert_eq!(TokenKind::keyword("pool"), Some(TokenKind::Pool));
    assert_eq!(TokenKind::keyword("then"), Some(TokenKind::Then));
    assert_eq!(TokenKind::keyword("while"), Some(TokenKind::While));
    assert_eq!(TokenKind::keyword("case"), Some(TokenKind::Case));
    assert_eq!(TokenKind::keyword("esac"), Some(TokenKind::Esac));
    assert_eq!(TokenKind::keyword("new"), Some(TokenKind::New));
    assert_eq!(TokenKind::keyword("of"), Some(TokenKind::Of));
    assert_eq!(TokenKind::keyword("not"), Some(TokenKind::Not));
    assert_eq!(TokenKind::keyword("true"), Some(TokenKind::True));
    assert_eq!(TokenKind::keyword("Class"), None);
    assert_eq!(TokenKind::keyword("classes"), None);
    assert_eq!(TokenKind::keyword(""), None);
    assert_eq!(TokenKind::keyword("i"), None);
}
