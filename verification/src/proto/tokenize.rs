//! Messages of the tokenizer service.

use vstd::prelude::*;

verus! {

/// Request to split a text into tokens.
#[derive(Clone, Debug)]
pub struct TokenizeTextRequest {
    /// Text to tokenize.
    pub text: String,
    /// Model whose tokenizer is used.
    pub model: String,
    /// End-user identifier; empty when unset.
    pub user: String,
}

/// What a [`TokenizeTextRequest`] holds, as mathematical values.
pub struct TokenizeTextRequestView {
    pub text: Seq<char>,
    pub model: Seq<char>,
    pub user: Seq<char>,
}

impl View for TokenizeTextRequest {
    type V = TokenizeTextRequestView;

    open spec fn view(&self) -> TokenizeTextRequestView {
        TokenizeTextRequestView {
            text: self.text@,
            model: self.model@,
            user: self.user@,
        }
    }
}

impl DeepView for TokenizeTextRequest {
    type V = TokenizeTextRequestView;

    open spec fn deep_view(&self) -> TokenizeTextRequestView {
        self@
    }
}

/// Tokens of a text.
#[derive(Clone, Debug)]
pub struct TokenizeTextResponse {
    /// Tokens in order.
    pub tokens: Vec<Token>,
    /// Model whose tokenizer was used.
    pub model: String,
}

/// What a [`TokenizeTextResponse`] holds, as mathematical values.
pub struct TokenizeTextResponseView {
    pub tokens: Seq<TokenView>,
    pub model: Seq<char>,
}

impl View for TokenizeTextResponse {
    type V = TokenizeTextResponseView;

    open spec fn view(&self) -> TokenizeTextResponseView {
        TokenizeTextResponseView {
            tokens: self.tokens.deep_view(),
            model: self.model@,
        }
    }
}

impl DeepView for TokenizeTextResponse {
    type V = TokenizeTextResponseView;

    open spec fn deep_view(&self) -> TokenizeTextResponseView {
        self@
    }
}

/// One token.
#[derive(Clone, Debug)]
pub struct Token {
    /// Identifier in the vocabulary.
    pub token_id: u32,
    /// Text of the token.
    pub string_token: String,
    /// Bytes of the token.
    pub token_bytes: Vec<u8>,
}

/// What a [`Token`] holds, as mathematical values.
pub struct TokenView {
    pub token_id: u32,
    pub string_token: Seq<char>,
    pub token_bytes: Seq<u8>,
}

impl View for Token {
    type V = TokenView;

    open spec fn view(&self) -> TokenView {
        TokenView {
            token_id: self.token_id,
            string_token: self.string_token@,
            token_bytes: self.token_bytes@,
        }
    }
}

impl DeepView for Token {
    type V = TokenView;

    open spec fn deep_view(&self) -> TokenView {
        self@
    }
}

} // verus!
