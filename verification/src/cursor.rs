//! A cursor over a token stream: the position of a parser in the tokens of
//! one group, with the lookahead the widget grammar needs.
//!
//! A cursor is a plain value. `fork` copies it, so a parser can look ahead on
//! the copy and go on with the original as if nothing had been read.

use crate::error::{Error, ErrorKind};
use crate::text::{is_reserved_word, reserved_word, str_eq};
use crate::token::{Delimiter, Spacing, Span, TokenKind, TokenKindView, TokenStream, TokenView};
use crate::widgets::{Ident, IdentView};
use vstd::prelude::*;

verus! {

/// A position in the tokens of one group.
pub struct Cursor<'a> {
    /// The tokens of the group that is being parsed.
    pub tokens: &'a TokenStream,
    /// The index of the next token.
    pub pos: usize,
    /// Where the group stands; diagnostics at its end point here.
    pub scope: Span,
}

/// A cursor as a mathematical value.
pub struct CursorView {
    pub tokens: Seq<TokenView>,
    pub pos: int,
    pub scope: Span,
}

impl<'a> View for Cursor<'a> {
    type V = CursorView;

    open spec fn view(&self) -> CursorView {
        CursorView { tokens: self.tokens@, pos: self.pos as int, scope: self.scope }
    }
}

impl CursorView {
    /// The same tokens, seen from position `pos`.
    pub open spec fn at(self, pos: int) -> CursorView {
        CursorView { tokens: self.tokens, pos, scope: self.scope }
    }

    /// Whether there is a token `i`.
    pub open spec fn has(self, i: int) -> bool {
        0 <= i < self.tokens.len()
    }

    /// Whether token `i` is an identifier that is not a reserved word.
    pub open spec fn is_ident_at(self, i: int) -> bool {
        self.has(i) && match self.tokens[i].kind {
            TokenKindView::Ident(name) => !is_reserved_word(name),
            _ => false,
        }
    }

    /// Whether token `i` is the word `word`, reserved or not.
    pub open spec fn is_word_at(self, i: int, word: Seq<char>) -> bool {
        self.has(i) && self.tokens[i].kind == TokenKindView::Ident(word)
    }

    /// Whether token `i` is the punctuation character `ch`, glued to what
    /// follows or not.
    pub open spec fn is_punct_at(self, i: int, ch: char) -> bool {
        self.has(i) && match self.tokens[i].kind {
            TokenKindView::Punct(c, _) => c == ch,
            _ => false,
        }
    }

    /// Whether token `i` is a `=` that stands alone, as it does not in `==`
    /// or `=>`.
    pub open spec fn is_assignment_at(self, i: int) -> bool {
        self.has(i) && self.tokens[i].kind == TokenKindView::Punct('=', Spacing::Alone)
    }

    /// Whether tokens `i` and `i + 1` are the two characters of the
    /// operator `first second`, as `-` and `>` are of `->`.
    pub open spec fn is_operator_at(self, i: int, first: char, second: char) -> bool {
        &&& self.has(i)
        &&& self.tokens[i].kind == TokenKindView::Punct(first, Spacing::Joint)
        &&& self.is_punct_at(i + 1, second)
    }

    /// Whether token `i` is a group in the brackets `delimiter`.
    pub open spec fn is_group_at(self, i: int, delimiter: Delimiter) -> bool {
        self.has(i) && match self.tokens[i].kind {
            TokenKindView::Group(d, _) => d == delimiter,
            _ => false,
        }
    }

    /// The text of the identifier at `i`.
    pub open spec fn ident_at(self, i: int) -> IdentView {
        IdentView {
            name: match self.tokens[i].kind {
                TokenKindView::Ident(name) => name,
                _ => Seq::empty(),
            },
            span: self.tokens[i].span,
        }
    }

    /// The tokens inside the group at `i`.
    pub open spec fn group_tokens_at(self, i: int) -> Seq<TokenView> {
        match self.tokens[i].kind {
            TokenKindView::Group(_, inner) => inner,
            _ => Seq::empty(),
        }
    }

    /// A cursor at the start of the group at `i`.
    pub open spec fn enter(self, i: int) -> CursorView {
        CursorView { tokens: self.group_tokens_at(i), pos: 0, scope: self.tokens[i].span }
    }

    /// Where a diagnostic about token `i` points: at the token, or at the
    /// enclosing group where the tokens have run out.
    pub open spec fn span_at(self, i: int) -> Span {
        if self.has(i) {
            self.tokens[i].span
        } else {
            self.scope
        }
    }

    /// The tokens from `from` up to `to`.
    pub open spec fn range(self, from: int, to: int) -> Seq<TokenView> {
        if 0 <= from <= to <= self.tokens.len() {
            self.tokens.subrange(from, to)
        } else {
            Seq::empty()
        }
    }

    /// The index of the first comma at or after `from`, or the number of
    /// tokens if there is none. Commas inside groups do not count.
    pub open spec fn next_comma(self, from: int) -> int {
        first_comma(self.tokens, from)
    }

    /// The index of the first group in curly braces at or after `from`, or
    /// the number of tokens if there is none.
    pub open spec fn next_brace(self, from: int) -> int {
        first_brace(self.tokens, from)
    }

    /// The index of the first `=>` at or after `from`, or the number of
    /// tokens if there is none.
    pub open spec fn next_fat_arrow(self, from: int) -> int {
        first_fat_arrow(self.tokens, from)
    }

    /// The index of the first word `if` at or after `from` and before
    /// `to`, or `to` if there is none.
    pub open spec fn next_if(self, from: int, to: int) -> int {
        first_if(self.tokens, from, to)
    }
}

/// The index of the first comma of `tokens` at or after `from`, or the
/// number of tokens if there is none. Commas inside groups do not count.
pub open spec fn first_comma(tokens: Seq<TokenView>, from: int) -> int
    decreases tokens.len() - from,
{
    if from < 0 || from >= tokens.len() {
        tokens.len() as int
    } else if tokens[from].kind is Punct && tokens[from].kind->Punct_0 == ',' {
        from
    } else {
        first_comma(tokens, from + 1)
    }
}

/// The index of the first group in curly braces at or after `from`, or the
/// number of tokens if there is none.
pub open spec fn first_brace(tokens: Seq<TokenView>, from: int) -> int
    decreases tokens.len() - from,
{
    if from < 0 || from >= tokens.len() {
        tokens.len() as int
    } else if tokens[from].kind is Group && tokens[from].kind->Group_0 == Delimiter::Brace {
        from
    } else {
        first_brace(tokens, from + 1)
    }
}

/// Whether tokens `i` and `i + 1` are the two characters of `=>`.
pub open spec fn is_fat_arrow(tokens: Seq<TokenView>, i: int) -> bool {
    &&& 0 <= i < tokens.len() - 1
    &&& tokens[i].kind == TokenKindView::Punct('=', Spacing::Joint)
    &&& tokens[i + 1].kind is Punct
    &&& tokens[i + 1].kind->Punct_0 == '>'
}

/// The index of the first `=>` at or after `from`, or the number of tokens
/// if there is none.
pub open spec fn first_fat_arrow(tokens: Seq<TokenView>, from: int) -> int
    decreases tokens.len() - from,
{
    if from < 0 || from >= tokens.len() {
        tokens.len() as int
    } else if is_fat_arrow(tokens, from) {
        from
    } else {
        first_fat_arrow(tokens, from + 1)
    }
}

/// The index of the first word `if` at or after `from` and before `to`, or
/// `to` if there is none.
pub open spec fn first_if(tokens: Seq<TokenView>, from: int, to: int) -> int
    decreases to - from,
{
    if from < 0 || from >= to || to > tokens.len() {
        to
    } else if tokens[from].kind == TokenKindView::Ident("if"@) {
        from
    } else {
        first_if(tokens, from + 1, to)
    }
}

/// The first comma at or after `from` is found at or after `from`.
pub proof fn lemma_first_comma(tokens: Seq<TokenView>, from: int)
    requires
        0 <= from <= tokens.len(),
    ensures
        from <= first_comma(tokens, from) <= tokens.len(),
        first_comma(tokens, from) < tokens.len() ==> tokens[first_comma(tokens, from)].kind
            is Punct && tokens[first_comma(tokens, from)].kind->Punct_0 == ',',
    decreases tokens.len() - from,
{
    if from < tokens.len() && !(tokens[from].kind is Punct && tokens[from].kind->Punct_0 == ',') {
        lemma_first_comma(tokens, from + 1);
    }
}

/// The first group in braces at or after `from` is found at or after
/// `from`.
pub proof fn lemma_first_brace(tokens: Seq<TokenView>, from: int)
    requires
        0 <= from <= tokens.len(),
    ensures
        from <= first_brace(tokens, from) <= tokens.len(),
        first_brace(tokens, from) < tokens.len() ==> tokens[first_brace(tokens, from)].kind
            is Group && tokens[first_brace(tokens, from)].kind->Group_0 == Delimiter::Brace,
    decreases tokens.len() - from,
{
    if from < tokens.len() && !(tokens[from].kind is Group && tokens[from].kind->Group_0
        == Delimiter::Brace) {
        lemma_first_brace(tokens, from + 1);
    }
}

/// The first `=>` at or after `from` is found at or after `from`.
pub proof fn lemma_first_fat_arrow(tokens: Seq<TokenView>, from: int)
    requires
        0 <= from <= tokens.len(),
    ensures
        from <= first_fat_arrow(tokens, from) <= tokens.len(),
        first_fat_arrow(tokens, from) < tokens.len() ==> is_fat_arrow(
            tokens,
            first_fat_arrow(tokens, from),
        ),
    decreases tokens.len() - from,
{
    if from < tokens.len() && !is_fat_arrow(tokens, from) {
        lemma_first_fat_arrow(tokens, from + 1);
    }
}

impl<'a> Cursor<'a> {
    /// A cursor at the first token of `tokens`, which stand at `scope`.
    pub fn new(tokens: &'a TokenStream, scope: Span) -> (c: Cursor<'a>)
        ensures
            c@ == (CursorView { tokens: tokens@, pos: 0, scope }),
    {
        Cursor { tokens, pos: 0, scope }
    }

    /// The tokens are no more than a `usize` can count.
    pub proof fn lemma_len_fits(&self)
        ensures
            self@.tokens.len() <= usize::MAX,
    {
        assert(self.tokens.tokens.len() <= usize::MAX);
    }

    /// A copy of this cursor, to look ahead with.
    pub fn fork(&self) -> (c: Cursor<'a>)
        ensures
            c@ == self@,
    {
        Cursor { tokens: self.tokens, pos: self.pos, scope: self.scope }
    }

    /// Whether no token is left.
    pub fn is_empty(&self) -> (b: bool)
        ensures
            b == !self@.has(self@.pos),
    {
        self.pos >= self.tokens.len()
    }

    /// Where a diagnostic about the next token points.
    pub fn span(&self) -> (s: Span)
        ensures
            s == self@.span_at(self@.pos),
    {
        if self.pos < self.tokens.len() {
            self.tokens.tokens[self.pos].span
        } else {
            self.scope
        }
    }

    fn word_at(&self, i: usize, word: &str) -> (b: bool)
        ensures
            b == self@.is_word_at(i as int, word@),
    {
        if i < self.tokens.len() {
            match &self.tokens.tokens[i].kind {
                TokenKind::Ident(name) => {
                    let b = str_eq(name.as_str(), word);
                    assert(self@.tokens[i as int].kind == TokenKindView::Ident(name@));
                    b
                },
                _ => false,
            }
        } else {
            false
        }
    }

    fn ident_at(&self, i: usize) -> (b: bool)
        ensures
            b == self@.is_ident_at(i as int),
    {
        if i < self.tokens.len() {
            match &self.tokens.tokens[i].kind {
                TokenKind::Ident(name) => !reserved_word(name.as_str()),
                _ => false,
            }
        } else {
            false
        }
    }

    fn punct_at(&self, i: usize, ch: char) -> (b: bool)
        ensures
            b == self@.is_punct_at(i as int, ch),
    {
        if i < self.tokens.len() {
            match &self.tokens.tokens[i].kind {
                TokenKind::Punct(c, _) => *c == ch,
                _ => false,
            }
        } else {
            false
        }
    }

    fn operator_at(&self, i: usize, first: char, second: char) -> (b: bool)
        ensures
            b == self@.is_operator_at(i as int, first, second),
    {
        if i < self.tokens.len() {
            match &self.tokens.tokens[i].kind {
                TokenKind::Punct(c, Spacing::Joint) => *c == first && self.punct_at(i + 1, second),
                _ => false,
            }
        } else {
            false
        }
    }

    fn group_at(&self, i: usize, delimiter: Delimiter) -> (b: bool)
        ensures
            b == self@.is_group_at(i as int, delimiter),
    {
        if i < self.tokens.len() {
            match &self.tokens.tokens[i].kind {
                TokenKind::Group(d, _) => *d == delimiter,
                _ => false,
            }
        } else {
            false
        }
    }

    /// Whether the next token is an identifier that is not a reserved word.
    pub fn peek_ident(&self) -> (b: bool)
        ensures
            b == self@.is_ident_at(self@.pos),
    {
        self.ident_at(self.pos)
    }

    /// Whether the next token is the word `word`.
    pub fn peek_word(&self, word: &str) -> (b: bool)
        ensures
            b == self@.is_word_at(self@.pos, word@),
    {
        self.word_at(self.pos, word)
    }

    /// Whether the token after the next is the word `word`.
    pub fn peek2_word(&self, word: &str) -> (b: bool)
        ensures
            b == self@.is_word_at(self@.pos + 1, word@),
    {
        if self.pos < self.tokens.len() {
            self.word_at(self.pos + 1, word)
        } else {
            false
        }
    }

    /// Whether the next token is the punctuation character `ch`.
    pub fn peek_punct(&self, ch: char) -> (b: bool)
        ensures
            b == self@.is_punct_at(self@.pos, ch),
    {
        self.punct_at(self.pos, ch)
    }

    /// Whether the token after the next is the punctuation character `ch`.
    pub fn peek2_punct(&self, ch: char) -> (b: bool)
        ensures
            b == self@.is_punct_at(self@.pos + 1, ch),
    {
        if self.pos < self.tokens.len() {
            self.punct_at(self.pos + 1, ch)
        } else {
            false
        }
    }

    /// Whether the third token from the cursor is a `=` that stands
    /// alone.
    pub fn peek3_assignment(&self) -> (b: bool)
        ensures
            b == self@.is_assignment_at(self@.pos + 2),
    {
        if self.pos < self.tokens.len() && self.pos + 1 < self.tokens.len() && self.pos + 2
            < self.tokens.len() {
            match &self.tokens.tokens[self.pos + 2].kind {
                TokenKind::Punct(c, Spacing::Alone) => *c == '=',
                _ => false,
            }
        } else {
            false
        }
    }

    /// Whether the next two tokens are the operator `first second`.
    pub fn peek_operator(&self, first: char, second: char) -> (b: bool)
        ensures
            b == self@.is_operator_at(self@.pos, first, second),
    {
        self.operator_at(self.pos, first, second)
    }

    /// Whether the next token is a group in the brackets `delimiter`.
    pub fn peek_group(&self, delimiter: Delimiter) -> (b: bool)
        ensures
            b == self@.is_group_at(self@.pos, delimiter),
    {
        self.group_at(self.pos, delimiter)
    }

    /// Whether the token after the next is a group in the brackets
    /// `delimiter`.
    pub fn peek2_group(&self, delimiter: Delimiter) -> (b: bool)
        ensures
            b == self@.is_group_at(self@.pos + 1, delimiter),
    {
        if self.pos < self.tokens.len() {
            self.group_at(self.pos + 1, delimiter)
        } else {
            false
        }
    }

    /// Passes over `n` tokens.
    pub fn advance(&mut self, n: usize)
        requires
            old(self)@.pos + n <= usize::MAX,
        ensures
            final(self)@ == old(self)@.at(old(self)@.pos + n),
    {
        proof {
            self.lemma_len_fits();
        }
        self.pos = self.pos + n;
    }

    /// Moves to position `pos`.
    pub fn seek(&mut self, pos: usize)
        ensures
            final(self)@ == old(self)@.at(pos as int),
    {
        self.pos = pos;
    }

    /// Takes the next token if it is an identifier that is not a reserved
    /// word.
    pub fn parse_ident(&mut self) -> (r: Result<Ident, Error>)
        ensures
            old(self)@.is_ident_at(old(self)@.pos) ==> r.is_ok() && r.unwrap()@ == old(
                self,
            )@.ident_at(old(self)@.pos) && final(self)@ == old(self)@.at(old(self)@.pos + 1),
            !old(self)@.is_ident_at(old(self)@.pos) ==> r == Err::<Ident, Error>(
                Error { kind: ErrorKind::ExpectedIdent, span: old(self)@.span_at(old(self)@.pos) },
            ) && final(self)@ == old(self)@,
    {
        proof {
            self.lemma_len_fits();
        }
        if self.peek_ident() {
            let token = &self.tokens.tokens[self.pos];
            match &token.kind {
                TokenKind::Ident(name) => {
                    let id = Ident { name: name.clone(), span: token.span };
                    self.pos = self.pos + 1;
                    Ok(id)
                },
                _ => Err(Error::new(self.span(), ErrorKind::ExpectedIdent)),
            }
        } else {
            Err(Error::new(self.span(), ErrorKind::ExpectedIdent))
        }
    }

    /// Takes the next token if it is an identifier or a reserved word.
    pub fn parse_ident_or_word(&mut self) -> (r: Option<Ident>)
        ensures
            ({
                let c = old(self)@;
                let is_word = c.has(c.pos) && c.tokens[c.pos].kind is Ident;
                match r {
                    Some(id) => is_word && id@ == c.ident_at(c.pos) && final(self)@ == c.at(
                        c.pos + 1,
                    ),
                    None => !is_word && final(self)@ == c,
                }
            }),
    {
        if self.pos < self.tokens.len() {
            let token = &self.tokens.tokens[self.pos];
            match &token.kind {
                TokenKind::Ident(name) => {
                    let id = Ident { name: name.clone(), span: token.span };
                    self.pos = self.pos + 1;
                    Some(id)
                },
                _ => None,
            }
        } else {
            None
        }
    }

    /// Takes the next token if it is the word `word`, and says whether it
    /// was.
    pub fn parse_word(&mut self, word: &str) -> (found: bool)
        ensures
            found == old(self)@.is_word_at(old(self)@.pos, word@),
            found ==> final(self)@ == old(self)@.at(old(self)@.pos + 1),
            !found ==> final(self)@ == old(self)@,
    {
        proof {
            self.lemma_len_fits();
        }
        if self.peek_word(word) {
            self.pos = self.pos + 1;
            true
        } else {
            false
        }
    }

    /// Takes the next token if it is the punctuation character `ch`, and
    /// says whether it was.
    pub fn parse_punct(&mut self, ch: char) -> (found: bool)
        ensures
            found == old(self)@.is_punct_at(old(self)@.pos, ch),
            found ==> final(self)@ == old(self)@.at(old(self)@.pos + 1),
            !found ==> final(self)@ == old(self)@,
    {
        proof {
            self.lemma_len_fits();
        }
        if self.peek_punct(ch) {
            self.pos = self.pos + 1;
            true
        } else {
            false
        }
    }

    /// Takes the next two tokens if they are the operator `first second`,
    /// and says whether they were.
    pub fn parse_operator(&mut self, first: char, second: char) -> (found: bool)
        ensures
            found == old(self)@.is_operator_at(old(self)@.pos, first, second),
            found ==> final(self)@ == old(self)@.at(old(self)@.pos + 2),
            !found ==> final(self)@ == old(self)@,
    {
        proof {
            self.lemma_len_fits();
        }
        if self.peek_operator(first, second) {
            self.pos = self.pos + 2;
            true
        } else {
            false
        }
    }

    /// Takes the next token if it is a group in the brackets `delimiter`,
    /// and hands out a cursor at the start of the group.
    pub fn parse_group(&mut self, delimiter: Delimiter) -> (r: Option<Cursor<'a>>)
        ensures
            old(self)@.is_group_at(old(self)@.pos, delimiter) ==> r.is_some() && r.unwrap()@
                == old(self)@.enter(old(self)@.pos) && final(self)@ == old(self)@.at(
                old(self)@.pos + 1,
            ),
            !old(self)@.is_group_at(old(self)@.pos, delimiter) ==> r.is_none() && final(self)@
                == old(self)@,
    {
        proof {
            self.lemma_len_fits();
        }
        if self.peek_group(delimiter) {
            let token = &self.tokens.tokens[self.pos];
            match &token.kind {
                TokenKind::Group(_, inner) => {
                    let c = Cursor { tokens: inner, pos: 0, scope: token.span };
                    self.pos = self.pos + 1;
                    Some(c)
                },
                _ => None,
            }
        } else {
            None
        }
    }

    /// A copy of the tokens from the cursor up to `end`, which is empty if
    /// `end` is before the cursor or after the last token. The cursor moves
    /// to `end`.
    pub fn take_until(&mut self, end: usize) -> (out: TokenStream)
        ensures
            out@ == old(self)@.range(old(self)@.pos, end as int),
            final(self)@ == old(self)@.at(end as int),
    {
        let mut out = TokenStream::new();
        if end < self.pos || end > self.tokens.len() {
            self.pos = end;
            return out;
        }
        let ghost start = self@.pos;
        let ghost all = self@.tokens;
        assert(out@ =~= all.subrange(start, start));
        while self.pos < end
            invariant
                0 <= start <= self@.pos <= end <= all.len(),
                all == old(self)@.tokens,
                start == old(self)@.pos,
                self@ == old(self)@.at(self@.pos),
                out@ == all.subrange(start, self@.pos),
            decreases end - self.pos,
        {
            let t = self.tokens.tokens[self.pos].clone();
            assert(t@ == all[self@.pos]);
            out.push(t);
            self.pos = self.pos + 1;
            assert(out@ =~= all.subrange(start, self@.pos));
        }
        out
    }

    /// The index of the first comma at or after the cursor, or the number
    /// of tokens if there is none.
    pub fn find_comma(&self) -> (i: usize)
        ensures
            i == self@.next_comma(self@.pos),
            self@.pos <= self@.tokens.len() ==> self@.pos <= i <= self@.tokens.len(),
    {
        let mut i = self.pos;
        if i > self.tokens.len() {
            return self.tokens.len();
        }
        while i < self.tokens.len() && !self.punct_at(i, ',')
            invariant
                self@.pos <= i <= self@.tokens.len(),
                self@.next_comma(self@.pos) == self@.next_comma(i as int),
            decreases self@.tokens.len() - i,
        {
            i = i + 1;
        }
        i
    }

    /// The index of the first group in curly braces at or after the
    /// cursor, or the number of tokens if there is none.
    pub fn find_brace(&self) -> (i: usize)
        ensures
            i == self@.next_brace(self@.pos),
            self@.pos <= self@.tokens.len() ==> self@.pos <= i <= self@.tokens.len(),
    {
        let mut i = self.pos;
        if i > self.tokens.len() {
            return self.tokens.len();
        }
        while i < self.tokens.len() && !self.group_at(i, Delimiter::Brace)
            invariant
                self@.pos <= i <= self@.tokens.len(),
                self@.next_brace(self@.pos) == self@.next_brace(i as int),
            decreases self@.tokens.len() - i,
        {
            i = i + 1;
        }
        i
    }

    /// The index of the first `=>` at or after the cursor, or the number of
    /// tokens if there is none.
    pub fn find_fat_arrow(&self) -> (i: usize)
        ensures
            i == self@.next_fat_arrow(self@.pos),
            self@.pos <= self@.tokens.len() ==> self@.pos <= i <= self@.tokens.len(),
    {
        let mut i = self.pos;
        if i > self.tokens.len() {
            return self.tokens.len();
        }
        while i < self.tokens.len() && !self.operator_at(i, '=', '>')
            invariant
                self@.pos <= i <= self@.tokens.len(),
                self@.next_fat_arrow(self@.pos) == self@.next_fat_arrow(i as int),
            decreases self@.tokens.len() - i,
        {
            i = i + 1;
        }
        i
    }

    /// The index of the first word `if` at or after the cursor and before
    /// `to`, or `to` if there is none.
    pub fn find_if(&self, to: usize) -> (i: usize)
        ensures
            i == self@.next_if(self@.pos, to as int),
            self@.pos <= to ==> self@.pos <= i <= to,
    {
        if to > self.tokens.len() || to < self.pos {
            return to;
        }
        let mut i = self.pos;
        while i < to && !self.word_at(i, "if")
            invariant
                self@.pos <= i <= to <= self@.tokens.len(),
                self@.next_if(self@.pos, to as int) == self@.next_if(i as int, to as int),
            decreases to - i,
        {
            i = i + 1;
        }
        i
    }
}

} // verus!
