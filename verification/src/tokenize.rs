//! Tokenizer requests and responses.

use vstd::prelude::*;
use crate::proto;
use vstd::string::StringExecFns;

verus! {

/// Request to split a text into tokens.
#[derive(Clone, Debug)]
pub struct TokenizeRequest {
    /// Text to tokenize.
    pub text: String,
    /// Model whose tokenizer is used.
    pub model: String,
    /// End-user identifier.
    pub user: Option<String>,
}

/// What a [`TokenizeRequest`] holds, as mathematical values.
pub struct TokenizeRequestView {
    pub text: Seq<char>,
    pub model: Seq<char>,
    pub user: Option<Seq<char>>,
}

impl View for TokenizeRequest {
    type V = TokenizeRequestView;

    open spec fn view(&self) -> TokenizeRequestView {
        TokenizeRequestView {
            text: self.text@,
            model: self.model@,
            user: self.user.deep_view(),
        }
    }
}

impl DeepView for TokenizeRequest {
    type V = TokenizeRequestView;

    open spec fn deep_view(&self) -> TokenizeRequestView {
        self@
    }
}

/// One token of a text.
#[derive(Debug, Clone, PartialEq)]
pub struct Token {
    /// Identifier in the vocabulary.
    pub token_id: u32,
    /// Text of the token.
    pub string_token: String,
    /// Bytes of the token.
    pub token_bytes: Vec<u8>,
}

/// What a [`Token`] holds, as mathematical values.
pub struct TokenView {
    pub token_id: u32,
    pub string_token: Seq<char>,
    pub token_bytes: Seq<u8>,
}

impl View for Token {
    type V = TokenView;

    open spec fn view(&self) -> TokenView {
        TokenView {
            token_id: self.token_id,
            string_token: self.string_token@,
            token_bytes: self.token_bytes@,
        }
    }
}

impl DeepView for Token {
    type V = TokenView;

    open spec fn deep_view(&self) -> TokenView {
        self@
    }
}

/// Tokens of a text.
#[derive(Clone, Debug)]
pub struct TokenizeResponse {
    /// Tokens in order.
    pub tokens: Vec<Token>,
    /// Model whose tokenizer was used.
    pub model: String,
}

/// What a [`TokenizeResponse`] holds, as mathematical values.
pub struct TokenizeResponseView {
    pub tokens: Seq<TokenView>,
    pub model: Seq<char>,
}

impl View for TokenizeResponse {
    type V = TokenizeResponseView;

    open spec fn view(&self) -> TokenizeResponseView {
        TokenizeResponseView {
            tokens: self.tokens.deep_view(),
            model: self.model@,
        }
    }
}

impl DeepView for TokenizeResponse {
    type V = TokenizeResponseView;

    open spec fn deep_view(&self) -> TokenizeResponseView {
        self@
    }
}

impl TokenizeRequest {
    /// A request for the tokenizer of the given model, with an empty text.
    pub fn new(model: &str) -> (request: Self)
        ensures
            request@ == (TokenizeRequestView { text: Seq::empty(), model: model@, user: None }),
    {
        TokenizeRequest { text: String::new(), model: model.to_string(), user: None }
    }

    /// Sets the text to tokenize.
    pub fn with_text(self, text: &str) -> (request: Self)
        ensures
            request@ == (TokenizeRequestView { text: text@, ..self@ }),
    {
        let mut request = self;
        request.text = text.to_string();
        request
    }

    /// Sets the end-user identifier.
    pub fn with_user(self, user: &str) -> (request: Self)
        ensures
            request@ == (TokenizeRequestView { user: Some(user@), ..self@ }),
    {
        let mut request = self;
        request.user = Some(user.to_string());
        request
    }
}

impl TokenizeRequestView {
    /// The wire form of the request; an unset user goes out as the empty text.
    pub open spec fn wire(self) -> proto::TokenizeTextRequestView {
        proto::TokenizeTextRequestView {
            text: self.text,
            model: self.model,
            user: match self.user {
                Some(user) => user,
                None => Seq::empty(),
            },
        }
    }
}

impl TokenView {
    /// The token that a wire message stands for: the same three values.
    pub open spec fn from_wire(wire: proto::TokenView) -> TokenView {
        TokenView {
            token_id: wire.token_id,
            string_token: wire.string_token,
            token_bytes: wire.token_bytes,
        }
    }
}

/// The texts of a list of tokens, joined in order.
pub open spec fn joined_text(tokens: Seq<TokenView>) -> Seq<char>
    decreases tokens.len(),
{
    if tokens.len() == 0 {
        Seq::empty()
    } else {
        joined_text(tokens.drop_last()) + tokens.last().string_token
    }
}

impl TokenizeResponseView {
    /// The response that a wire message stands for: the tokens one for one
    /// and in the same order.
    pub open spec fn from_wire(wire: proto::TokenizeTextResponseView) -> TokenizeResponseView {
        TokenizeResponseView {
            tokens: Seq::new(wire.tokens.len(), |i: int| TokenView::from_wire(wire.tokens[i])),
            model: wire.model,
        }
    }
}

impl TokenizeResponse {
    /// The number of tokens.
    pub fn token_count(&self) -> (count: usize)
        ensures
            count == self@.tokens.len(),
    {
        self.tokens.len()
    }

    /// The text that the tokens spell: their texts joined in order.
    pub fn text(&self) -> (text: String)
        ensures
            text@ == joined_text(self@.tokens),
    {
        let ghost tokens = self@.tokens;
        let mut text = String::new();
        let mut i: usize = 0;
        assert(tokens.take(0) =~= Seq::empty());
        while i < self.tokens.len()
            invariant
                i <= self.tokens@.len(),
                tokens == self@.tokens,
                text@ == joined_text(tokens.take(i as int)),
            decreases self.tokens@.len() - i,
        {
            assert(tokens.take(i + 1).drop_last() =~= tokens.take(i as int));
            assert(tokens.take(i + 1).last() == self.tokens@[i as int]@);
            text.append(self.tokens[i].string_token.as_str());
            i += 1;
        }
        assert(tokens.take(self.tokens@.len() as int) =~= tokens);
        text
    }
}

} // verus!
