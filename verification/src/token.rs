//! The tokens of an invocation, as the parser reads them.

use crate::literal::decode_literal;
use vstd::prelude::*;

verus! {

/// One token of an invocation. A bracketed group is written flat, as
/// `Open`, its tokens, `Close`.
#[derive(Clone, Debug, PartialEq, Eq)]
pub enum Token {
    /// An identifier, by its name.
    Ident(String),
    /// `=`
    Equals,
    /// `,`
    Comma,
    /// `[`
    Open,
    /// `]`
    Close,
    /// A literal, by its source text, quotes and escapes included.
    Literal(String),
    /// A string literal, by its value.
    Text(String),
    /// Any other token, by its source text.
    Other(String),
}

/// The mathematical content of a [`Token`].
pub enum TokenView {
    Ident(Seq<char>),
    Equals,
    Comma,
    Open,
    Close,
    Literal(Seq<char>),
    Text(Seq<char>),
    Other(Seq<char>),
}

impl View for Token {
    type V = TokenView;

    open spec fn view(&self) -> TokenView {
        match self {
            Token::Ident(name) => TokenView::Ident(name@),
            Token::Equals => TokenView::Equals,
            Token::Comma => TokenView::Comma,
            Token::Open => TokenView::Open,
            Token::Close => TokenView::Close,
            Token::Literal(text) => TokenView::Literal(text@),
            Token::Text(value) => TokenView::Text(value@),
            Token::Other(text) => TokenView::Other(text@),
        }
    }
}

/// The contents of a token sequence.
pub open spec fn tokens_view(tokens: Seq<Token>) -> Seq<TokenView> {
    Seq::new(tokens.len(), |i: int| tokens[i]@)
}

/// Whether `decoded` is `token` with its literal read: the same token,
/// or a string literal's value in place of a literal's source text.
pub open spec fn reads_literal(token: TokenView, decoded: TokenView) -> bool {
    decoded == token || (token is Literal && decoded is Text)
}

/// Whether `decoded` is `tokens` with their literals read: as many
/// tokens, each in its place, each the same token or a string literal's
/// value in place of a literal's source text.
pub open spec fn reads_literals(tokens: Seq<TokenView>, decoded: Seq<TokenView>) -> bool {
    &&& decoded.len() == tokens.len()
    &&& forall|i: int| 0 <= i < tokens.len() ==> reads_literal(tokens[i], #[trigger] decoded[i])
}

/// Whether one of `tokens` is a literal by its source text.
pub open spec fn holds_literal(tokens: Seq<TokenView>) -> bool {
    exists|i: int| 0 <= i < tokens.len() && #[trigger] tokens[i] is Literal
}

/// Where no token is a literal by its source text, reading the literals
/// changes nothing.
pub proof fn lemma_nothing_to_read(tokens: Seq<TokenView>, decoded: Seq<TokenView>)
    requires
        !holds_literal(tokens),
        reads_literals(tokens, decoded),
    ensures
        decoded == tokens,
{
    assert forall|i: int| 0 <= i < tokens.len() implies decoded[i] == tokens[i] by {
        assert(reads_literal(tokens[i], decoded[i]));
        assert(!(tokens[i] is Literal));
    }
    assert(decoded =~= tokens);
}

/// Reads the literal of one token: a literal that is a string literal
/// becomes that literal's value; every other token stays as it is.
pub fn decode_token(token: &Token) -> (decoded: Token)
    ensures
        reads_literal(token@, decoded@),
{
    match token {
        Token::Ident(name) => Token::Ident(name.clone()),
        Token::Equals => Token::Equals,
        Token::Comma => Token::Comma,
        Token::Open => Token::Open,
        Token::Close => Token::Close,
        Token::Literal(text) => match decode_literal(text.as_str()) {
            Some(value) => Token::Text(value),
            None => Token::Literal(text.clone()),
        },
        Token::Text(value) => Token::Text(value.clone()),
        Token::Other(text) => Token::Other(text.clone()),
    }
}

/// Reads the literals of a token sequence: the same tokens in the same
/// places, each string literal by its value.
pub fn decode(tokens: &[Token]) -> (decoded: Vec<Token>)
    ensures
        reads_literals(tokens_view(tokens@), tokens_view(decoded@)),
{
    let mut decoded: Vec<Token> = Vec::new();
    let mut i: usize = 0;
    while i < tokens.len()
        invariant
            i <= tokens.len(),
            decoded.len() == i,
            forall|k: int| 0 <= k < i ==> reads_literal(tokens[k]@, #[trigger] decoded[k]@),
        decreases tokens.len() - i,
    {
        decoded.push(decode_token(&tokens[i]));
        i += 1;
    }
    assert forall|k: int| 0 <= k < tokens.len() implies reads_literal(
        tokens_view(tokens@)[k],
        #[trigger] tokens_view(decoded@)[k],
    ) by {
        assert(reads_literal(tokens[k]@, decoded[k]@));
    }
    decoded
}

} // verus!
