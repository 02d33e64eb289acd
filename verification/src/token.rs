//! Token trees: the input of the widget parser and the output of the code
//! generators.
//!
//! A [`TokenStream`] is a sequence of [`Token`]s; a token is an identifier, a
//! single punctuation character, a literal in its source form, or a delimited
//! group that holds a stream of its own. Every token carries the [`Span`] of
//! the source text it came from, which diagnostics point at.
//!
//! Contracts speak of the mathematical view of a stream, a `Seq<TokenView>`.

use vstd::prelude::*;

verus! {

/// A place in the source text, from `lo` up to `hi`. The library does not
/// look inside a span: it hands the spans of its input on to its output and
/// to its diagnostics.
#[derive(Clone, Copy, Debug, PartialEq, Eq, Structural)]
pub struct Span {
    pub lo: usize,
    pub hi: usize,
}

impl Span {
    /// The span of tokens that the generators make up themselves.
    pub open spec fn call_site_spec() -> Span {
        Span { lo: 0, hi: 0 }
    }

    /// The span of tokens that the generators make up themselves.
    #[verifier::when_used_as_spec(call_site_spec)]
    pub fn call_site() -> (s: Span)
        ensures
            s == Span::call_site_spec(),
    {
        Span { lo: 0, hi: 0 }
    }
}

/// The brackets around a group.
#[derive(Clone, Copy, Debug, PartialEq, Eq, Structural)]
pub enum Delimiter {
    /// `( ... )`
    Parenthesis,
    /// `{ ... }`
    Brace,
    /// `[ ... ]`
    Bracket,
    /// No brackets in the source text.
    Invisible,
}

/// Whether a punctuation character is glued to the one that follows it, as
/// the `-` of `->` is.
#[derive(Clone, Copy, Debug, PartialEq, Eq, Structural)]
pub enum Spacing {
    Alone,
    Joint,
}

/// What a token is.
#[derive(Debug, PartialEq, Eq)]
pub enum TokenKind {
    Ident(String),
    Punct(char, Spacing),
    /// A literal, written as in source text (a string literal with its quotes).
    Literal(String),
    Group(Delimiter, TokenStream),
}

/// One token and the place it came from.
#[derive(Debug, PartialEq, Eq)]
pub struct Token {
    pub kind: TokenKind,
    pub span: Span,
}

/// A sequence of tokens.
#[derive(Debug, PartialEq, Eq)]
pub struct TokenStream {
    pub tokens: Vec<Token>,
}

/// What a token is, as a mathematical value.
pub enum TokenKindView {
    Ident(Seq<char>),
    Punct(char, Spacing),
    Literal(Seq<char>),
    Group(Delimiter, Seq<TokenView>),
}

/// A token as a mathematical value.
pub struct TokenView {
    pub kind: TokenKindView,
    pub span: Span,
}

/// The view of each token of `ts`, in order.
pub open spec fn view_tokens(ts: Seq<Token>) -> Seq<TokenView>
    decreases ts, 1int,
{
    Seq::new(
        ts.len(),
        |i: int|
            if 0 <= i < ts.len() {
                view_token(ts[i])
            } else {
                arbitrary()
            },
    )
}

/// The view of one token: its text as a sequence of characters, and for a
/// group the views of the tokens inside.
pub open spec fn view_token(t: Token) -> TokenView
    decreases t, 0int,
{
    TokenView {
        kind: match t.kind {
            TokenKind::Ident(s) => TokenKindView::Ident(s@),
            TokenKind::Punct(c, spacing) => TokenKindView::Punct(c, spacing),
            TokenKind::Literal(s) => TokenKindView::Literal(s@),
            TokenKind::Group(d, inner) => TokenKindView::Group(d, view_tokens(inner.tokens@)),
        },
        span: t.span,
    }
}

impl View for Token {
    type V = TokenView;

    open spec fn view(&self) -> TokenView {
        view_token(*self)
    }
}

impl View for TokenStream {
    type V = Seq<TokenView>;

    open spec fn view(&self) -> Seq<TokenView> {
        view_tokens(self.tokens@)
    }
}

/// An identifier token.
pub open spec fn ident_token(name: Seq<char>, span: Span) -> TokenView {
    TokenView { kind: TokenKindView::Ident(name), span }
}

/// A punctuation token.
pub open spec fn punct_token(ch: char, spacing: Spacing, span: Span) -> TokenView {
    TokenView { kind: TokenKindView::Punct(ch, spacing), span }
}

/// A literal token with the source form `repr`.
pub open spec fn literal_token(repr: Seq<char>, span: Span) -> TokenView {
    TokenView { kind: TokenKindView::Literal(repr), span }
}

/// A group token.
pub open spec fn group_token(delimiter: Delimiter, inner: Seq<TokenView>, span: Span) -> TokenView {
    TokenView { kind: TokenKindView::Group(delimiter, inner), span }
}

/// The two tokens of a path separator `::`.
pub open spec fn path_sep_tokens(span: Span) -> Seq<TokenView> {
    seq![punct_token(':', Spacing::Joint, span), punct_token(':', Spacing::Alone, span)]
}

/// The two tokens of a fat arrow `=>`.
pub open spec fn fat_arrow_tokens(span: Span) -> Seq<TokenView> {
    seq![punct_token('=', Spacing::Joint, span), punct_token('>', Spacing::Alone, span)]
}

/// The view of a sequence with one more token is the view of the sequence
/// with the view of the token after it.
pub proof fn lemma_view_tokens_push(ts: Seq<Token>, t: Token)
    ensures
        view_tokens(ts.push(t)) == view_tokens(ts).push(t@),
{
    assert(view_tokens(ts.push(t)) =~= view_tokens(ts).push(t@));
}

/// The view of two sequences put together is their views put together.
pub proof fn lemma_view_tokens_concat(a: Seq<Token>, b: Seq<Token>)
    ensures
        view_tokens(a + b) == view_tokens(a) + view_tokens(b),
{
    assert(view_tokens(a + b) =~= view_tokens(a) + view_tokens(b));
}

impl Clone for Token {
    fn clone(&self) -> (out: Token)
        ensures
            out@ == self@,
        decreases *self, 0int,
    {
        let kind = match &self.kind {
            TokenKind::Ident(s) => TokenKind::Ident(s.clone()),
            TokenKind::Punct(c, spacing) => TokenKind::Punct(*c, *spacing),
            TokenKind::Literal(s) => TokenKind::Literal(s.clone()),
            TokenKind::Group(d, inner) => TokenKind::Group(*d, inner.clone()),
        };
        Token { kind, span: self.span }
    }
}

impl Clone for TokenStream {
    fn clone(&self) -> (out: TokenStream)
        ensures
            out@ == self@,
        decreases *self, 1int,
    {
        let mut tokens: Vec<Token> = Vec::new();
        let mut i: usize = 0;
        while i < self.tokens.len()
            invariant
                i <= self.tokens.len(),
                tokens@.len() == i,
                forall|k: int| 0 <= k < i ==> (#[trigger] tokens@[k])@ == self.tokens@[k]@,
            decreases self.tokens.len() - i,
        {
            let t = self.tokens[i].clone();
            tokens.push(t);
            i += 1;
        }
        assert(view_tokens(tokens@) =~= view_tokens(self.tokens@));
        TokenStream { tokens }
    }
}

impl Token {
    /// An identifier token.
    pub fn ident(name: &str, span: Span) -> (t: Token)
        ensures
            t@ == ident_token(name@, span),
    {
        Token { kind: TokenKind::Ident(String::from_str(name)), span }
    }

    /// A punctuation token.
    pub fn punct(ch: char, spacing: Spacing, span: Span) -> (t: Token)
        ensures
            t@ == punct_token(ch, spacing, span),
    {
        Token { kind: TokenKind::Punct(ch, spacing), span }
    }

    /// A literal token with the source form `repr`.
    pub fn literal(repr: &str, span: Span) -> (t: Token)
        ensures
            t@ == literal_token(repr@, span),
    {
        Token { kind: TokenKind::Literal(String::from_str(repr)), span }
    }

    /// A group token that holds `inner`.
    pub fn group(delimiter: Delimiter, inner: TokenStream, span: Span) -> (t: Token)
        ensures
            t@ == group_token(delimiter, inner@, span),
    {
        Token { kind: TokenKind::Group(delimiter, inner), span }
    }
}

impl TokenStream {
    /// The empty stream.
    pub fn new() -> (s: TokenStream)
        ensures
            s@ == Seq::<TokenView>::empty(),
    {
        let s = TokenStream { tokens: Vec::new() };
        assert(s@ =~= Seq::<TokenView>::empty());
        s
    }

    /// The number of tokens, a group counting as one.
    pub fn len(&self) -> (n: usize)
        ensures
            n == self@.len(),
    {
        self.tokens.len()
    }

    /// Whether the stream holds no token.
    pub fn is_empty(&self) -> (b: bool)
        ensures
            b == (self@.len() == 0),
    {
        self.tokens.len() == 0
    }

    /// The span of the first token, or the call site for an empty stream.
    pub open spec fn spec_span(tokens: Seq<TokenView>) -> Span {
        if tokens.len() > 0 {
            tokens[0].span
        } else {
            Span::call_site()
        }
    }

    /// The span of the first token, or the call site for an empty stream.
    pub fn span(&self) -> (s: Span)
        ensures
            s == Self::spec_span(self@),
    {
        if self.tokens.len() > 0 {
            self.tokens[0].span
        } else {
            Span::call_site()
        }
    }

    /// Appends one token.
    pub fn push(&mut self, token: Token)
        ensures
            final(self)@ == old(self)@.push(token@),
    {
        proof {
            lemma_view_tokens_push(self.tokens@, token);
        }
        self.tokens.push(token);
    }

    /// Appends the tokens of `other`, in order.
    pub fn append(&mut self, other: TokenStream)
        ensures
            final(self)@ == old(self)@ + other@,
    {
        let mut other = other;
        proof {
            lemma_view_tokens_concat(self.tokens@, other.tokens@);
        }
        self.tokens.append(&mut other.tokens);
    }

    /// Appends a copy of the tokens of `other`, in order.
    pub fn extend(&mut self, other: &TokenStream)
        ensures
            final(self)@ == old(self)@ + other@,
    {
        self.append(other.clone());
    }

    /// Appends an identifier.
    pub fn push_ident(&mut self, name: &str, span: Span)
        ensures
            final(self)@ == old(self)@.push(ident_token(name@, span)),
    {
        self.push(Token::ident(name, span));
    }

    /// Appends a punctuation character.
    pub fn push_punct(&mut self, ch: char, spacing: Spacing, span: Span)
        ensures
            final(self)@ == old(self)@.push(punct_token(ch, spacing, span)),
    {
        self.push(Token::punct(ch, spacing, span));
    }

    /// Appends a literal with the source form `repr`.
    pub fn push_literal(&mut self, repr: &str, span: Span)
        ensures
            final(self)@ == old(self)@.push(literal_token(repr@, span)),
    {
        self.push(Token::literal(repr, span));
    }

    /// Appends a group that holds `inner`.
    pub fn push_group(&mut self, delimiter: Delimiter, inner: TokenStream, span: Span)
        ensures
            final(self)@ == old(self)@.push(group_token(delimiter, inner@, span)),
    {
        self.push(Token::group(delimiter, inner, span));
    }

    /// Appends `::`.
    pub fn push_path_sep(&mut self, span: Span)
        ensures
            final(self)@ == old(self)@ + path_sep_tokens(span),
    {
        self.push_punct(':', Spacing::Joint, span);
        self.push_punct(':', Spacing::Alone, span);
        assert(self@ =~= old(self)@ + path_sep_tokens(span));
    }

    /// Appends `=>`.
    pub fn push_fat_arrow(&mut self, span: Span)
        ensures
            final(self)@ == old(self)@ + fat_arrow_tokens(span),
    {
        self.push_punct('=', Spacing::Joint, span);
        self.push_punct('>', Spacing::Alone, span);
        assert(self@ =~= old(self)@ + fat_arrow_tokens(span));
    }
}

} // verus!
