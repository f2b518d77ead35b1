//! The tokens that the name of a type is printed with.

use crate::ident::{Ident, Lifetime};
use vstd::prelude::*;

verus! {

/// One token of a name.
#[derive(Debug, PartialEq, Eq)]
pub enum Token {
    /// `&`
    And,
    /// `mut`
    Mut,
    /// `dyn`
    Dyn,
    /// `str`
    Str,
    /// `for`
    For,
    /// `,`
    Comma,
    /// `::`
    PathSep,
    /// `<`
    Lt,
    /// `>`
    Gt,
    /// `->`
    Arrow,
    /// `+`
    Plus,
    /// `*`
    Star,
    /// `_`
    Underscore,
    Ident(Ident),
    Lifetime(Lifetime),
    /// Tokens between parentheses.
    Paren(Vec<Token>),
}

/// A token as a mathematical value.
pub enum TokenModel {
    And,
    Mut,
    Dyn,
    Str,
    For,
    Comma,
    PathSep,
    Lt,
    Gt,
    Arrow,
    Plus,
    Star,
    Underscore,
    Ident(Seq<char>),
    Lifetime(Seq<char>),
    Paren(Seq<TokenModel>),
}

/// What a token is.
pub open spec fn token_model(token: Token) -> TokenModel
    decreases token,
{
    match token {
        Token::And => TokenModel::And,
        Token::Mut => TokenModel::Mut,
        Token::Dyn => TokenModel::Dyn,
        Token::Str => TokenModel::Str,
        Token::For => TokenModel::For,
        Token::Comma => TokenModel::Comma,
        Token::PathSep => TokenModel::PathSep,
        Token::Lt => TokenModel::Lt,
        Token::Gt => TokenModel::Gt,
        Token::Arrow => TokenModel::Arrow,
        Token::Plus => TokenModel::Plus,
        Token::Star => TokenModel::Star,
        Token::Underscore => TokenModel::Underscore,
        Token::Ident(ident) => TokenModel::Ident(ident@),
        Token::Lifetime(lifetime) => TokenModel::Lifetime(lifetime@),
        Token::Paren(tokens) => TokenModel::Paren(tokens_model(tokens@)),
    }
}

/// What each of the tokens is, in order.
pub open spec fn tokens_model(tokens: Seq<Token>) -> Seq<TokenModel>
    decreases tokens,
{
    Seq::new(
        tokens.len(),
        |i: int|
            if 0 <= i < tokens.len() {
                token_model(tokens[i])
            } else {
                arbitrary()
            },
    )
}

impl View for Token {
    type V = TokenModel;

    open spec fn view(&self) -> TokenModel {
        token_model(*self)
    }
}

/// Puts `token` at the end of `tokens`.
pub fn push_token(tokens: &mut Vec<Token>, token: Token)
    ensures
        tokens_model(final(tokens)@) == tokens_model(old(tokens)@).push(token_model(token)),
{
    tokens.push(token);
}

/// Moves the tokens of `part` to the end of `tokens`.
pub fn push_tokens(tokens: &mut Vec<Token>, part: Vec<Token>)
    ensures
        tokens_model(final(tokens)@) == tokens_model(old(tokens)@) + tokens_model(part@),
{
    let mut part = part;
    tokens.append(&mut part);
}

/// Moves the tokens of `part` to the end of `tokens`, after a separator
/// unless `part` is the first one.
pub fn push_joined(tokens: &mut Vec<Token>, part: Vec<Token>, first: bool, sep: Token)
    ensures
        tokens_model(final(tokens)@) == if first {
            tokens_model(old(tokens)@) + tokens_model(part@)
        } else {
            tokens_model(old(tokens)@) + seq![token_model(sep)] + tokens_model(part@)
        },
{
    if !first {
        push_token(tokens, sep);
    }
    push_tokens(tokens, part);
}

} // verus!
