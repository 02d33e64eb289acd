//! The parser of attribute lists.

use crate::cursor::Cursor;
use crate::error::{Error, ErrorKind};
use crate::parse::grammar::{self, same_tokens};
use crate::text::str_eq;
use crate::token::Delimiter;
use crate::widgets::{view_opt_attrs, Attr, AttrView, Attrs};
use vstd::prelude::*;

verus! {

/// An attribute made of its keyword alone: nothing may follow the keyword.
fn bare_attr<'a>(inner: &Cursor<'a>, attr: Attr) -> (r: Result<Attr, Error>)
    requires
        inner@.pos == 1,
    ensures
        match grammar::bare_attr(inner@, attr@) {
            Ok(v) => r is Ok && r->Ok_0@ == v,
            Err(e) => r is Err && r->Err_0 == e,
        },
{
    if !inner.is_empty() {
        Err(Error::new(inner.span(), ErrorKind::UnexpectedToken))
    } else {
        Ok(attr)
    }
}

impl Attr {
    /// Parses the attribute at the cursor: a `#` and a group in square
    /// brackets.
    pub fn parse<'a>(input: &mut Cursor<'a>) -> (r: Result<Attr, Error>)
        ensures
            same_tokens(old(input)@, final(input)@),
            match grammar::parse_attr(old(input)@) {
                Ok(attr) => r is Ok && r->Ok_0@ == attr && final(input)@.pos == old(input)@.pos
                    + 2,
                Err(e) => r is Err && r->Err_0 == e,
            },
    {
        reveal(grammar::parse_attr);
        let mut whole = input.fork();
        if !input.parse_punct('#') {
            return Err(Error::new(input.span(), ErrorKind::ExpectedAttribute));
        }
        let mut inner = match input.parse_group(Delimiter::Bracket) {
            Some(inner) => inner,
            None => {
                return Err(Error::new(input.span(), ErrorKind::ExpectedAttribute));
            },
        };
        let ghost inner0 = inner@;
        let kw = match inner.parse_ident_or_word() {
            Some(kw) => kw,
            None => {
                return Err(Error::new(inner.span(), ErrorKind::ExpectedIdent));
            },
        };
        if str_eq(kw.name.as_str(), "local") {
            bare_attr(&inner, Attr::Local(kw))
        } else if str_eq(kw.name.as_str(), "local_ref") {
            bare_attr(&inner, Attr::LocalRef(kw))
        } else if str_eq(kw.name.as_str(), "root") {
            bare_attr(&inner, Attr::Root(kw))
        } else if str_eq(kw.name.as_str(), "watch") {
            bare_attr(&inner, Attr::Watch(kw))
        } else if str_eq(kw.name.as_str(), "track") {
            let mut guard = match inner.parse_group(Delimiter::Parenthesis) {
                Some(guard) => guard,
                None => {
                    return Err(Error::new(inner.span(), ErrorKind::ExpectedParentheses));
                },
            };
            if !inner.is_empty() {
                return Err(Error::new(inner.span(), ErrorKind::UnexpectedToken));
            }
            let len = guard.tokens.len();
            let tokens = guard.take_until(len);
            assert(tokens@ =~= inner0.group_tokens_at(1));
            Ok(Attr::Track(kw, tokens))
        } else if str_eq(kw.name.as_str(), "name") {
            let mut arg = match inner.parse_group(Delimiter::Parenthesis) {
                Some(arg) => arg,
                None => {
                    return Err(Error::new(inner.span(), ErrorKind::ExpectedParentheses));
                },
            };
            if !inner.is_empty() {
                return Err(Error::new(inner.span(), ErrorKind::UnexpectedToken));
            }
            let name = match arg.parse_ident() {
                Ok(name) => name,
                Err(e) => {
                    return Err(e);
                },
            };
            if !arg.is_empty() {
                return Err(Error::new(arg.span(), ErrorKind::UnexpectedToken));
            }
            Ok(Attr::Name(kw, name))
        } else if str_eq(kw.name.as_str(), "doc") {
            let end = whole.pos + 2;
            let tokens = whole.take_until(end);
            Ok(Attr::Doc(tokens))
        } else {
            Err(Error::new(kw.span, ErrorKind::UnknownAttribute))
        }
    }
}

impl Attrs {
    /// Parses the attribute list at the cursor, if one starts there: one
    /// `#[...]` after another.
    pub fn parse<'a>(input: &mut Cursor<'a>) -> (r: Result<Option<Attrs>, Error>)
        ensures
            same_tokens(old(input)@, final(input)@),
            match grammar::parse_opt_attrs(old(input)@) {
                Ok((attrs, pos)) => r is Ok && view_opt_attrs(r->Ok_0) == attrs
                    && final(input)@.pos == pos,
                Err(e) => r is Err && r->Err_0 == e,
            },
    {
        reveal(grammar::parse_opt_attrs);
        reveal(grammar::parse_attrs_from);
        if !input.peek_punct('#') {
            return Ok(None);
        }
        let mut inner: Vec<Attr> = Vec::new();
        let ghost start = input@;
        assert(crate::widgets::view_attrs(inner@) =~= Seq::<AttrView>::empty());
        while input.peek_punct('#')
            invariant
                start == old(input)@,
                start.is_punct_at(start.pos, '#'),
                same_tokens(start, input@),
                grammar::parse_attrs_from(start, Seq::empty()) == grammar::parse_attrs_from(
                    input@,
                    crate::widgets::view_attrs(inner@),
                ),
            decreases input@.tokens.len() - input@.pos,
        {
            reveal(grammar::parse_opt_attrs);
            reveal(grammar::parse_attrs_from);
            let ghost before = crate::widgets::view_attrs(inner@);
            assert(input@ == start.at(input@.pos));
            proof {
                grammar::lemma_attr_has_group(input@);
            }
            let attr = match Attr::parse(input) {
                Ok(attr) => attr,
                Err(e) => {
                    return Err(e);
                },
            };
            inner.push(attr);
            assert(crate::widgets::view_attrs(inner@) =~= before.push(attr@));
        }
        Ok(Some(Attrs { inner }))
    }
}

} // verus!
