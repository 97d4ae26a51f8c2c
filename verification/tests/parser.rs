use git_version::config::{ArgName, Configuration};
use git_version::parser::{
    parse_args, parse_clauses, parse_describe_args, parse_list, Expected, ParseError,
    ParseErrorKind,
};
use git_version::token::{decode, Token};

fn ident(name: &str) -> Token {
    Token::Ident(name.to_string())
}

fn lit(source: &str) -> Token {
    Token::Literal(source.to_string())
}

fn text(value: &str) -> Token {
    Token::Text(value.to_string())
}

fn clause(name: &str, source: &str) -> Vec<Token> {
    vec![ident(name), Token::Equals, lit(source)]
}

fn expected(position: usize, what: Expected) -> ParseError {
    ParseError { position, kind: ParseErrorKind::Expected(what) }
}

#[test]
fn empty_invocation_sets_nothing() {
    assert_eq!(parse_args(&[]), Ok(Configuration::new()));
    let config = parse_args(&[]).unwrap();
    assert_eq!(config.args, None);
    assert_eq!(config.prefix, None);
    assert_eq!(config.suffix, None);
    assert_eq!(config.cargo_prefix, None);
    assert_eq!(config.cargo_suffix, None);
    assert_eq!(config.fallback, None);
}

#[test]
fn every_option_is_read() {
    let mut tokens = vec![ident("args"), Token::Equals, Token::Open];
    tokens.push(lit("\"--abbrev=40\""));
    tokens.push(Token::Comma);
    tokens.push(lit("\"--always\""));
    tokens.push(Token::Close);
    for (name, value) in [
        ("prefix", "\"git:\""),
        ("suffix", "\"!\""),
        ("cargo_prefix", "\"cargo:\""),
        ("cargo_suffix", "\"?\""),
        ("fallback", "\"unknown\""),
    ] {
        tokens.push(Token::Comma);
        tokens.extend(clause(name, value));
    }
    let config = parse_args(&tokens).unwrap();
    assert_eq!(config.args, Some(vec!["--abbrev=40".to_string(), "--always".to_string()]));
    assert_eq!(config.prefix, Some("git:".to_string()));
    assert_eq!(config.suffix, Some("!".to_string()));
    assert_eq!(config.cargo_prefix, Some("cargo:".to_string()));
    assert_eq!(config.cargo_suffix, Some("?".to_string()));
    assert_eq!(config.fallback, Some("unknown".to_string()));
}

#[test]
fn order_of_clauses_is_irrelevant() {
    let mut forward = clause("prefix", "\"a\"");
    forward.push(Token::Comma);
    forward.extend(clause("fallback", "\"b\""));
    let mut backward = clause("fallback", "\"b\"");
    backward.push(Token::Comma);
    backward.extend(clause("prefix", "\"a\""));
    assert_eq!(parse_args(&forward), parse_args(&backward));
    assert!(parse_args(&forward).is_ok());
}

#[test]
fn trailing_comma_is_accepted() {
    let mut tokens = clause("prefix", "\"a\"");
    tokens.push(Token::Comma);
    let config = parse_args(&tokens).unwrap();
    assert_eq!(config.prefix, Some("a".to_string()));
}

#[test]
fn literals_are_decoded() {
    let config = parse_args(&clause("prefix", "\"a\\n\\\"b\\\"\"")).unwrap();
    assert_eq!(config.prefix, Some("a\n\"b\"".to_string()));
    let config = parse_args(&clause("prefix", "r#\"raw \"x\"\"#")).unwrap();
    assert_eq!(config.prefix, Some("raw \"x\"".to_string()));
}

#[test]
fn decode_keeps_places_and_reads_strings() {
    let tokens = vec![ident("prefix"), Token::Equals, lit("\"v\""), Token::Comma, lit("42")];
    let decoded = decode(&tokens);
    assert_eq!(
        decoded,
        vec![ident("prefix"), Token::Equals, text("v"), Token::Comma, lit("42")]
    );
}

#[test]
fn clauses_with_read_literals() {
    let tokens = vec![ident("suffix"), Token::Equals, text("-x")];
    let config = parse_clauses(&tokens).unwrap();
    assert_eq!(config.suffix, Some("-x".to_string()));
    let unread = vec![ident("suffix"), Token::Equals, lit("\"-x\"")];
    assert_eq!(parse_clauses(&unread), Err(expected(2, Expected::Text)));
}

#[test]
fn duplicate_argument_is_refused() {
    let mut tokens = clause("prefix", "\"a\"");
    tokens.push(Token::Comma);
    tokens.extend(clause("prefix", "\"b\""));
    let error = parse_args(&tokens).unwrap_err();
    assert_eq!(error, ParseError { position: 4, kind: ParseErrorKind::Duplicate(ArgName::Prefix) });
    assert_eq!(error.message(), "duplicate argument `prefix`");
}

#[test]
fn duplicate_args_is_refused() {
    let mut tokens = vec![ident("args"), Token::Equals, Token::Open, Token::Close, Token::Comma];
    tokens.extend(vec![ident("args"), Token::Equals, Token::Open, Token::Close]);
    assert_eq!(
        parse_args(&tokens),
        Err(ParseError { position: 5, kind: ParseErrorKind::Duplicate(ArgName::Args) })
    );
}

#[test]
fn unknown_argument_with_suggestion() {
    let error = parse_args(&clause("prefx", "\"a\"")).unwrap_err();
    assert_eq!(
        error,
        ParseError {
            position: 0,
            kind: ParseErrorKind::Unknown {
                name: "prefx".to_string(),
                suggestion: Some(ArgName::Prefix),
            },
        }
    );
    assert_eq!(error.message(), "unknown argument `prefx`, did you mean `prefix`?");
}

#[test]
fn unknown_argument_without_suggestion() {
    let error = parse_args(&clause("verbosity", "\"a\"")).unwrap_err();
    assert_eq!(
        error,
        ParseError {
            position: 0,
            kind: ParseErrorKind::Unknown { name: "verbosity".to_string(), suggestion: None },
        }
    );
    assert_eq!(error.message(), "unknown argument `verbosity`");
}

#[test]
fn malformed_clauses_are_refused_at_the_offending_token() {
    assert_eq!(parse_args(&[Token::Comma]), Err(expected(0, Expected::Name)));
    assert_eq!(parse_args(&[lit("\"a\"")]), Err(expected(0, Expected::Name)));
    assert_eq!(parse_args(&[ident("prefix")]), Err(expected(1, Expected::Equals)));
    assert_eq!(
        parse_args(&[ident("prefix"), Token::Comma]),
        Err(expected(1, Expected::Equals))
    );
    assert_eq!(parse_args(&[ident("prefix"), Token::Equals]), Err(expected(2, Expected::Text)));
    assert_eq!(
        parse_args(&[ident("prefix"), Token::Equals, lit("42")]),
        Err(expected(2, Expected::Text))
    );
    assert_eq!(
        parse_args(&[ident("prefix"), Token::Equals, ident("x")]),
        Err(expected(2, Expected::Text))
    );
    let mut tokens = clause("prefix", "\"a\"");
    tokens.extend(clause("suffix", "\"b\""));
    assert_eq!(parse_args(&tokens), Err(expected(3, Expected::Comma)));
}

#[test]
fn the_equals_sign_is_looked_for_before_the_name_is_judged() {
    assert_eq!(parse_args(&[ident("nonsense")]), Err(expected(1, Expected::Equals)));
}

#[test]
fn malformed_lists_are_refused_at_the_offending_token() {
    let head = vec![ident("args"), Token::Equals];
    let mut tokens = head.clone();
    tokens.push(lit("\"--always\""));
    assert_eq!(parse_args(&tokens), Err(expected(2, Expected::OpenBracket)));

    let mut tokens = head.clone();
    tokens.push(Token::Open);
    assert_eq!(parse_args(&tokens), Err(expected(3, Expected::Text)));

    let mut tokens = head.clone();
    tokens.extend(vec![Token::Open, lit("\"a\""), lit("\"b\""), Token::Close]);
    assert_eq!(parse_args(&tokens), Err(expected(4, Expected::CommaOrClose)));

    let mut tokens = head.clone();
    tokens.extend(vec![Token::Open, Token::Comma, Token::Close]);
    assert_eq!(parse_args(&tokens), Err(expected(3, Expected::Text)));

    let mut tokens = head.clone();
    tokens.extend(vec![Token::Open, lit("\"a\""), Token::Comma]);
    assert_eq!(parse_args(&tokens), Err(expected(5, Expected::Text)));
}

#[test]
fn lists_may_be_empty_or_end_in_a_comma() {
    let tokens = vec![ident("args"), Token::Equals, Token::Open, Token::Close];
    assert_eq!(parse_args(&tokens).unwrap().args, Some(vec![]));
    let tokens = vec![
        ident("args"),
        Token::Equals,
        Token::Open,
        lit("\"--tags\""),
        Token::Comma,
        Token::Close,
        Token::Comma,
        ident("fallback"),
        Token::Equals,
        lit("\"x\""),
    ];
    let config = parse_args(&tokens).unwrap();
    assert_eq!(config.args, Some(vec!["--tags".to_string()]));
    assert_eq!(config.fallback, Some("x".to_string()));
}

#[test]
fn secondary_form_sets_only_args() {
    let tokens = vec![lit("\"--always\""), Token::Comma, lit("\"--dirty=-modified\"")];
    let config = parse_describe_args(&tokens).unwrap();
    assert_eq!(
        config.args,
        Some(vec!["--always".to_string(), "--dirty=-modified".to_string()])
    );
    let mut same = Configuration::new();
    same.args = Some(vec!["--always".to_string(), "--dirty=-modified".to_string()]);
    assert_eq!(config, same);

    let primary = vec![
        ident("args"),
        Token::Equals,
        Token::Open,
        lit("\"--always\""),
        Token::Comma,
        lit("\"--dirty=-modified\""),
        Token::Close,
    ];
    assert_eq!(parse_args(&primary), Ok(config));
}

#[test]
fn secondary_form_edges() {
    assert_eq!(parse_describe_args(&[]).unwrap().args, Some(vec![]));
    assert_eq!(
        parse_describe_args(&[lit("\"a\""), Token::Comma]).unwrap().args,
        Some(vec!["a".to_string()])
    );
    assert_eq!(
        parse_describe_args(&[lit("\"a\""), lit("\"b\"")]),
        Err(expected(1, Expected::Comma))
    );
    assert_eq!(parse_describe_args(&[ident("a")]), Err(expected(0, Expected::Text)));
    assert_eq!(parse_list(&[text("a")]).unwrap().args, Some(vec!["a".to_string()]));
    assert_eq!(parse_list(&[lit("\"a\"")]), Err(expected(0, Expected::Text)));
}

#[test]
fn messages_of_expectations() {
    assert_eq!(expected(0, Expected::Name).message(), "expected an argument name");
    assert_eq!(expected(0, Expected::Equals).message(), "expected `=`");
    assert_eq!(expected(0, Expected::Text).message(), "expected string literal");
    assert_eq!(expected(0, Expected::OpenBracket).message(), "expected `[`");
    assert_eq!(expected(0, Expected::CommaOrClose).message(), "expected `,` or `]`");
    assert_eq!(expected(0, Expected::Comma).message(), "expected `,`");
}
