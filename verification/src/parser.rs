//! The argument parser: from the tokens of an invocation to a
//! [`Configuration`], or to the first error with the position of the
//! offending token.
//!
//! The primary form is a list of `name = value` clauses separated by
//! commas, the last optionally followed by one. The value of `args` is a
//! bracketed list of string literals; every other value is one string
//! literal. The secondary form is a bare list of string literals, the
//! arguments of `git describe`.

use crate::config::{ArgName, Configuration, ConfigurationView, ValueView};
use crate::suggest::{closest, spec_closest};
use crate::text::{concat3, join3};
use crate::token::{decode, reads_literals, tokens_view, Token, TokenView};
use vstd::prelude::*;

verus! {

/// What the parser looked for where it stopped.
#[derive(Clone, Copy, Debug, PartialEq, Eq, Structural)]
pub enum Expected {
    /// The name of an argument.
    Name,
    /// `=` behind a name.
    Equals,
    /// A string literal.
    Text,
    /// `[` in front of the list of `args`.
    OpenBracket,
    /// `,` or `]` behind an item of a bracketed list.
    CommaOrClose,
    /// `,` behind a clause, or behind an item of a bare list.
    Comma,
}

/// Why an invocation was refused.
#[derive(Clone, Debug, PartialEq, Eq)]
pub enum ParseErrorKind {
    /// Another token stands where this one was needed.
    Expected(Expected),
    /// The argument was already written.
    Duplicate(ArgName),
    /// No argument has this name; the closest known name, if one is close.
    Unknown { name: String, suggestion: Option<ArgName> },
}

/// A refusal, with the index of the offending token; the number of tokens
/// where the input ended too early.
#[derive(Clone, Debug, PartialEq, Eq)]
pub struct ParseError {
    pub position: usize,
    pub kind: ParseErrorKind,
}

/// The mathematical content of a [`ParseErrorKind`].
pub enum ParseErrorKindView {
    Expected(Expected),
    Duplicate(ArgName),
    Unknown { name: Seq<char>, suggestion: Option<ArgName> },
}

/// The mathematical content of a [`ParseError`].
pub struct ParseErrorView {
    pub position: int,
    pub kind: ParseErrorKindView,
}

impl View for ParseErrorKind {
    type V = ParseErrorKindView;

    open spec fn view(&self) -> ParseErrorKindView {
        match self {
            ParseErrorKind::Expected(expected) => ParseErrorKindView::Expected(*expected),
            ParseErrorKind::Duplicate(name) => ParseErrorKindView::Duplicate(*name),
            ParseErrorKind::Unknown { name, suggestion } => ParseErrorKindView::Unknown {
                name: name@,
                suggestion: *suggestion,
            },
        }
    }
}

impl View for ParseError {
    type V = ParseErrorView;

    open spec fn view(&self) -> ParseErrorView {
        ParseErrorView { position: self.position as int, kind: self.kind@ }
    }
}

impl Expected {
    /// The words of a refusal that looked for `self`.
    pub open spec fn spec_message(self) -> Seq<char> {
        match self {
            Expected::Name => "expected an argument name"@,
            Expected::Equals => "expected `=`"@,
            Expected::Text => "expected string literal"@,
            Expected::OpenBracket => "expected `[`"@,
            Expected::CommaOrClose => "expected `,` or `]`"@,
            Expected::Comma => "expected `,`"@,
        }
    }

    /// The words of a refusal that looked for `self`.
    pub fn message(self) -> (text: &'static str)
        ensures
            text@ == self.spec_message(),
    {
        match self {
            Expected::Name => "expected an argument name",
            Expected::Equals => "expected `=`",
            Expected::Text => "expected string literal",
            Expected::OpenBracket => "expected `[`",
            Expected::CommaOrClose => "expected `,` or `]`",
            Expected::Comma => "expected `,`",
        }
    }
}

impl ParseErrorKindView {
    /// The words of the refusal. A duplicate and an unknown name are
    /// quoted; a suggestion follows the unknown name where there is one.
    pub open spec fn message(self) -> Seq<char> {
        match self {
            ParseErrorKindView::Expected(expected) => expected.spec_message(),
            ParseErrorKindView::Duplicate(name) => join3(
                "duplicate argument `"@,
                name.spec_text(),
                "`"@,
            ),
            ParseErrorKindView::Unknown { name, suggestion: None } => join3(
                "unknown argument `"@,
                name,
                "`"@,
            ),
            ParseErrorKindView::Unknown { name, suggestion: Some(known) } => join3(
                "unknown argument `"@,
                name,
                "`"@,
            ) + join3(", did you mean `"@, known.spec_text(), "`?"@),
        }
    }
}

impl ParseError {
    /// The words of the refusal, for a diagnostic.
    pub fn message(&self) -> (text: String)
        ensures
            text@ == self@.kind.message(),
    {
        match &self.kind {
            ParseErrorKind::Expected(expected) => expected.message().to_owned(),
            ParseErrorKind::Duplicate(name) => concat3("duplicate argument `", name.text(), "`"),
            ParseErrorKind::Unknown { name, suggestion } => {
                let mut text = concat3("unknown argument `", name.as_str(), "`");
                match suggestion {
                    Some(known) => {
                        text.append(concat3(", did you mean `", known.text(), "`?").as_str());
                    },
                    None => {},
                }
                text
            },
        }
    }
}

/// The punctuation that the grammar knows.
#[derive(Clone, Copy, Debug, PartialEq, Eq, Structural)]
pub enum Mark {
    Equals,
    Comma,
    Open,
    Close,
}

/// The refusal of the token at `position`, looking for `expected`.
pub open spec fn missing(position: int, expected: Expected) -> ParseErrorView {
    ParseErrorView { position, kind: ParseErrorKindView::Expected(expected) }
}

/// The punctuation at `pos`, if any stands there.
pub open spec fn spec_mark_at(tokens: Seq<TokenView>, pos: int) -> Option<Mark> {
    if 0 <= pos < tokens.len() {
        match tokens[pos] {
            TokenView::Equals => Some(Mark::Equals),
            TokenView::Comma => Some(Mark::Comma),
            TokenView::Open => Some(Mark::Open),
            TokenView::Close => Some(Mark::Close),
            _ => None,
        }
    } else {
        None
    }
}

/// The value of the string literal at `pos`, if one stands there with its
/// value read.
pub open spec fn spec_text_at(tokens: Seq<TokenView>, pos: int) -> Option<Seq<char>> {
    if 0 <= pos < tokens.len() {
        match tokens[pos] {
            TokenView::Text(value) => Some(value),
            _ => None,
        }
    } else {
        None
    }
}

/// Whether a list ends at `pos`: at `]` where it is bracketed, at the end
/// of the input where it is bare.
pub open spec fn list_ends(tokens: Seq<TokenView>, pos: int, bracketed: bool) -> bool {
    if bracketed {
        spec_mark_at(tokens, pos) == Some(Mark::Close)
    } else {
        pos >= tokens.len()
    }
}

/// The position behind a list that ends at `pos`.
pub open spec fn behind_list(pos: int, bracketed: bool) -> int {
    if bracketed {
        pos + 1
    } else {
        pos
    }
}

/// The items of a list from `pos` on, added to `items`, with the position
/// behind the list. Items are string literals separated by commas; a
/// comma may follow the last one.
pub open spec fn spec_items(
    tokens: Seq<TokenView>,
    pos: int,
    items: Seq<Seq<char>>,
    bracketed: bool,
) -> Result<(Seq<Seq<char>>, int), ParseErrorView>
    decreases tokens.len() - pos,
{
    if list_ends(tokens, pos, bracketed) {
        Ok((items, behind_list(pos, bracketed)))
    } else {
        match spec_text_at(tokens, pos) {
            None => Err(missing(pos, Expected::Text)),
            Some(value) => if list_ends(tokens, pos + 1, bracketed) {
                Ok((items.push(value), behind_list(pos + 1, bracketed)))
            } else if spec_mark_at(tokens, pos + 1) == Some(Mark::Comma) {
                spec_items(tokens, pos + 2, items.push(value), bracketed)
            } else {
                Err(
                    missing(
                        pos + 1,
                        if bracketed {
                            Expected::CommaOrClose
                        } else {
                            Expected::Comma
                        },
                    ),
                )
            },
        }
    }
}

/// The value written for `name` from `pos` on, with the position behind it.
pub open spec fn spec_value(tokens: Seq<TokenView>, pos: int, name: ArgName) -> Result<
    (ValueView, int),
    ParseErrorView,
> {
    if name == ArgName::Args {
        if spec_mark_at(tokens, pos) == Some(Mark::Open) {
            match spec_items(tokens, pos + 1, Seq::empty(), true) {
                Ok((items, next)) => Ok((ValueView::List(items), next)),
                Err(error) => Err(error),
            }
        } else {
            Err(missing(pos, Expected::OpenBracket))
        }
    } else {
        match spec_text_at(tokens, pos) {
            Some(text) => Ok((ValueView::Text(text), pos + 1)),
            None => Err(missing(pos, Expected::Text)),
        }
    }
}

/// The configuration that the clauses from `pos` on add to `config`.
pub open spec fn spec_clauses(tokens: Seq<TokenView>, pos: int, config: ConfigurationView) -> Result<
    ConfigurationView,
    ParseErrorView,
>
    decreases tokens.len() - pos,
{
    if pos < 0 || pos >= tokens.len() {
        Ok(config)
    } else {
        match tokens[pos] {
            TokenView::Ident(text) => if spec_mark_at(tokens, pos + 1) != Some(Mark::Equals) {
                Err(missing(pos + 1, Expected::Equals))
            } else {
                match ArgName::spec_from_text(text) {
                    None => Err(
                        ParseErrorView {
                            position: pos,
                            kind: ParseErrorKindView::Unknown {
                                name: text,
                                suggestion: spec_closest(text),
                            },
                        },
                    ),
                    Some(name) => if config.is_set(name) {
                        Err(ParseErrorView { position: pos, kind: ParseErrorKindView::Duplicate(name) })
                    } else {
                        match spec_value(tokens, pos + 2, name) {
                            Err(error) => Err(error),
                            Ok((value, next)) => if next >= tokens.len() {
                                Ok(config.with(name, value))
                            } else if spec_mark_at(tokens, next) == Some(Mark::Comma) {
                                proof {
                                    lemma_value_advances(tokens, pos + 2, name);
                                }
                                spec_clauses(tokens, next + 1, config.with(name, value))
                            } else {
                                Err(missing(next, Expected::Comma))
                            },
                        }
                    },
                }
            },
            _ => Err(missing(pos, Expected::Name)),
        }
    }
}

/// What the primary form means, on tokens whose literals are read: the
/// configuration built from its clauses, or the first refusal.
pub open spec fn spec_parse_clauses(tokens: Seq<TokenView>) -> Result<ConfigurationView, ParseErrorView> {
    spec_clauses(tokens, 0, ConfigurationView::empty())
}

/// What the secondary form means, on tokens whose literals are read: the
/// configuration in which only `args` is written, as the listed literals,
/// or the first refusal.
pub open spec fn spec_parse_list(tokens: Seq<TokenView>) -> Result<
    ConfigurationView,
    ParseErrorView,
> {
    match spec_items(tokens, 0, Seq::empty(), false) {
        Ok((items, _)) => Ok(ConfigurationView::empty().with(ArgName::Args, ValueView::List(items))),
        Err(error) => Err(error),
    }
}

/// A list read from `pos` ends behind `pos`, inside the input; a bracketed
/// one takes at least its closing bracket.
pub proof fn lemma_items_advance(
    tokens: Seq<TokenView>,
    pos: int,
    items: Seq<Seq<char>>,
    bracketed: bool,
)
    requires
        0 <= pos,
    ensures
        spec_items(tokens, pos, items, bracketed) matches Ok((_, next)) ==> pos <= next && (bracketed
            ==> pos < next <= tokens.len()),
    decreases tokens.len() - pos,
{
    if !list_ends(tokens, pos, bracketed) && spec_text_at(tokens, pos) is Some && !list_ends(
        tokens,
        pos + 1,
        bracketed,
    ) && spec_mark_at(tokens, pos + 1) == Some(Mark::Comma) {
        lemma_items_advance(tokens, pos + 2, items.push(spec_text_at(tokens, pos).unwrap()), bracketed);
    }
}

/// A value read from `pos` ends behind `pos`, inside the input.
pub proof fn lemma_value_advances(tokens: Seq<TokenView>, pos: int, name: ArgName)
    requires
        0 <= pos,
    ensures
        spec_value(tokens, pos, name) matches Ok((_, next)) ==> pos < next <= tokens.len(),
{
    if name == ArgName::Args {
        lemma_items_advance(tokens, pos + 1, Seq::empty(), true);
    }
}

/// The views of a parser's two outcomes.
pub open spec fn outcome_view(outcome: Result<Configuration, ParseError>) -> Result<
    ConfigurationView,
    ParseErrorView,
> {
    match outcome {
        Ok(config) => Ok(config@),
        Err(error) => Err(error@),
    }
}

/// The punctuation at `pos`, if any stands there.
fn mark_at(tokens: &[Token], pos: usize) -> (mark: Option<Mark>)
    ensures
        mark == spec_mark_at(tokens_view(tokens@), pos as int),
{
    if pos < tokens.len() {
        match &tokens[pos] {
            Token::Equals => Some(Mark::Equals),
            Token::Comma => Some(Mark::Comma),
            Token::Open => Some(Mark::Open),
            Token::Close => Some(Mark::Close),
            _ => None,
        }
    } else {
        None
    }
}

/// The value of the string literal at `pos`, if one stands there.
fn text_at(tokens: &[Token], pos: usize) -> (text: Option<String>)
    ensures
        text.deep_view() == spec_text_at(tokens_view(tokens@), pos as int),
{
    if pos < tokens.len() {
        match &tokens[pos] {
            Token::Text(value) => Some(value.clone()),
            _ => None,
        }
    } else {
        None
    }
}

/// Whether a list ends at `pos`.
fn ends_list(tokens: &[Token], pos: usize, bracketed: bool) -> (ends: bool)
    ensures
        ends == list_ends(tokens_view(tokens@), pos as int, bracketed),
{
    if bracketed {
        match mark_at(tokens, pos) {
            Some(Mark::Close) => true,
            _ => false,
        }
    } else {
        pos >= tokens.len()
    }
}

/// Reads the items of a list that starts at `start`.
fn parse_items(tokens: &[Token], start: usize, bracketed: bool) -> (r: Result<
    (Vec<String>, usize),
    ParseError,
>)
    requires
        start <= tokens.len(),
    ensures
        match r {
            Ok((items, next)) => spec_items(tokens_view(tokens@), start as int, Seq::empty(), bracketed)
                == Ok::<(Seq<Seq<char>>, int), ParseErrorView>((items.deep_view(), next as int)),
            Err(error) => spec_items(tokens_view(tokens@), start as int, Seq::empty(), bracketed)
                == Err::<(Seq<Seq<char>>, int), ParseErrorView>(error@),
        },
{
    let ghost view = tokens_view(tokens@);
    let ghost goal = spec_items(view, start as int, Seq::empty(), bracketed);
    let mut items: Vec<String> = Vec::new();
    let mut pos: usize = start;
    assert(items.deep_view() =~= Seq::<Seq<char>>::empty());
    loop
        invariant
            pos <= tokens.len(),
            view == tokens_view(tokens@),
            goal == spec_items(view, start as int, Seq::empty(), bracketed),
            goal == spec_items(view, pos as int, items.deep_view(), bracketed),
        decreases tokens.len() - pos,
    {
        if ends_list(tokens, pos, bracketed) {
            let next: usize = if bracketed {
                pos + 1
            } else {
                pos
            };
            return Ok((items, next));
        }
        match text_at(tokens, pos) {
            None => {
                return Err(ParseError { position: pos, kind: ParseErrorKind::Expected(Expected::Text) });
            },
            Some(value) => {
                let ghost before = items.deep_view();
                items.push(value);
                assert(items.deep_view() =~= before.push(value@));
                if ends_list(tokens, pos + 1, bracketed) {
                    let next: usize = if bracketed {
                        pos + 2
                    } else {
                        pos + 1
                    };
                    return Ok((items, next));
                }
                match mark_at(tokens, pos + 1) {
                    Some(Mark::Comma) => {
                        pos = pos + 2;
                    },
                    _ => {
                        let expected = if bracketed {
                            Expected::CommaOrClose
                        } else {
                            Expected::Comma
                        };
                        return Err(
                            ParseError { position: pos + 1, kind: ParseErrorKind::Expected(expected) },
                        );
                    },
                }
            },
        }
    }
}

/// Reads the value written for `name` at `pos` and stores it in `config`.
fn parse_value(tokens: &[Token], pos: usize, name: ArgName, config: &mut Configuration) -> (r: Result<
    usize,
    ParseError,
>)
    requires
        pos <= tokens.len(),
        !old(config)@.is_set(name),
    ensures
        match r {
            Ok(next) => exists|value: ValueView|
                {
                    &&& spec_value(tokens_view(tokens@), pos as int, name) == Ok::<
                        (ValueView, int),
                        ParseErrorView,
                    >((value, next as int))
                    &&& final(config)@ == old(config)@.with(name, value)
                },
            Err(error) => {
                &&& spec_value(tokens_view(tokens@), pos as int, name) == Err::<
                    (ValueView, int),
                    ParseErrorView,
                >(error@)
                &&& final(config)@ == old(config)@
            },
        },
{
    match name {
        ArgName::Args => {
            match mark_at(tokens, pos) {
                Some(Mark::Open) => {},
                _ => {
                    return Err(
                        ParseError { position: pos, kind: ParseErrorKind::Expected(Expected::OpenBracket) },
                    );
                },
            }
            match parse_items(tokens, pos + 1, true) {
                Ok((items, next)) => {
                    let ghost value = ValueView::List(items.deep_view());
                    config.args = Some(items);
                    assert(config@ == old(config)@.with(name, value));
                    Ok(next)
                },
                Err(error) => Err(error),
            }
        },
        _ => {
            match text_at(tokens, pos) {
                None => Err(ParseError { position: pos, kind: ParseErrorKind::Expected(Expected::Text) }),
                Some(text) => {
                    let ghost value = ValueView::Text(text@);
                    match name {
                        ArgName::Prefix => {
                            config.prefix = Some(text);
                        },
                        ArgName::Suffix => {
                            config.suffix = Some(text);
                        },
                        ArgName::CargoPrefix => {
                            config.cargo_prefix = Some(text);
                        },
                        ArgName::CargoSuffix => {
                            config.cargo_suffix = Some(text);
                        },
                        _ => {
                            config.fallback = Some(text);
                        },
                    }
                    assert(config@ == old(config)@.with(name, value));
                    Ok(pos + 1)
                },
            }
        },
    }
}

/// Parses the primary form, `name = value` clauses separated by commas,
/// from tokens whose literals are read: a string literal is a
/// [`Token::Text`]; a [`Token::Literal`] is none.
///
/// Succeeds exactly on the inputs that [`spec_parse_clauses`] accepts,
/// with the configuration it gives; otherwise returns the refusal it
/// gives: the first offending token and what is wrong with it.
pub fn parse_clauses(tokens: &[Token]) -> (outcome: Result<Configuration, ParseError>)
    ensures
        outcome_view(outcome) == spec_parse_clauses(tokens_view(tokens@)),
{
    let ghost view = tokens_view(tokens@);
    let mut config = Configuration::new();
    let mut pos: usize = 0;
    loop
        invariant
            pos <= tokens.len(),
            view == tokens_view(tokens@),
            spec_parse_clauses(view) == spec_clauses(view, pos as int, config@),
        decreases tokens.len() - pos,
    {
        if pos >= tokens.len() {
            return Ok(config);
        }
        let name: &String = match &tokens[pos] {
            Token::Ident(name) => name,
            _ => {
                return Err(ParseError { position: pos, kind: ParseErrorKind::Expected(Expected::Name) });
            },
        };
        match mark_at(tokens, pos + 1) {
            Some(Mark::Equals) => {},
            _ => {
                return Err(
                    ParseError { position: pos + 1, kind: ParseErrorKind::Expected(Expected::Equals) },
                );
            },
        }
        let known: ArgName = match ArgName::from_text(name.as_str()) {
            Some(known) => known,
            None => {
                return Err(
                    ParseError {
                        position: pos,
                        kind: ParseErrorKind::Unknown {
                            name: name.clone(),
                            suggestion: closest(name.as_str()),
                        },
                    },
                );
            },
        };
        if config.is_set(known) {
            return Err(ParseError { position: pos, kind: ParseErrorKind::Duplicate(known) });
        }
        proof {
            lemma_value_advances(view, pos + 2, known);
        }
        let next: usize = match parse_value(tokens, pos + 2, known, &mut config) {
            Ok(next) => next,
            Err(error) => {
                return Err(error);
            },
        };
        if next >= tokens.len() {
            return Ok(config);
        }
        match mark_at(tokens, next) {
            Some(Mark::Comma) => {
                pos = next + 1;
            },
            _ => {
                return Err(ParseError { position: next, kind: ParseErrorKind::Expected(Expected::Comma) });
            },
        }
    }
}

/// Parses the secondary form, the arguments of `git describe` as a bare
/// list of string literals, from tokens whose literals are read.
///
/// Succeeds exactly on the inputs that [`spec_parse_list`] accepts, with
/// a configuration in which only `args` is written.
pub fn parse_list(tokens: &[Token]) -> (outcome: Result<Configuration, ParseError>)
    ensures
        outcome_view(outcome) == spec_parse_list(tokens_view(tokens@)),
{
    match parse_items(tokens, 0, false) {
        Ok((items, _)) => {
            let mut config = Configuration::new();
            config.args = Some(items);
            Ok(config)
        },
        Err(error) => Err(error),
    }
}

/// Parses the primary form of an invocation: reads the literals of
/// `tokens`, then the clauses.
///
/// Which literals are string literals, and what they hold, is decided
/// outside; the outcome is that of [`parse_clauses`] on the tokens with
/// their literals read, whatever was read.
pub fn parse_args(tokens: &[Token]) -> (outcome: Result<Configuration, ParseError>)
    ensures
        exists|decoded: Seq<TokenView>|
            #[trigger] reads_literals(tokens_view(tokens@), decoded) && outcome_view(outcome)
                == spec_parse_clauses(decoded),
{
    let decoded = decode(tokens);
    let outcome = parse_clauses(decoded.as_slice());
    assert(reads_literals(tokens_view(tokens@), tokens_view(decoded@)));
    outcome
}

/// Parses the secondary form of an invocation: reads the literals of
/// `tokens`, then the list.
///
/// Which literals are string literals, and what they hold, is decided
/// outside; the outcome is that of [`parse_list`] on the tokens with their
/// literals read, whatever was read.
pub fn parse_describe_args(tokens: &[Token]) -> (outcome: Result<Configuration, ParseError>)
    ensures
        exists|decoded: Seq<TokenView>|
            #[trigger] reads_literals(tokens_view(tokens@), decoded) && outcome_view(outcome)
                == spec_parse_list(decoded),
{
    let decoded = decode(tokens);
    let outcome = parse_list(decoded.as_slice());
    assert(reads_literals(tokens_view(tokens@), tokens_view(decoded@)));
    outcome
}

} // verus!
