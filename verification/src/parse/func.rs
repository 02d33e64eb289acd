//! The parser of paths and constructors, and the names that are derived
//! from them.

use crate::cursor::Cursor;
use crate::error::{Error, ErrorKind};
use crate::parse::grammar::{self, same_tokens};
use crate::text::{decimal_string, lowercase, to_lowercase};
use crate::token::{Delimiter, Span};
use crate::widgets::{view_idents, Ident, Path, WidgetFunc};
use vstd::prelude::*;

verus! {

/// Whether the next token can be a segment of a path.
fn peek_segment<'a>(input: &Cursor<'a>) -> (b: bool)
    ensures
        b == grammar::is_segment_at(input@, input@.pos),
{
    input.peek_ident() || input.peek_word("crate") || input.peek_word("self") || input.peek_word(
        "super",
    ) || input.peek_word("Self")
}

fn parse_segment<'a>(input: &mut Cursor<'a>) -> (r: Result<Ident, Error>)
    ensures
        same_tokens(old(input)@, final(input)@),
        grammar::is_segment_at(old(input)@, old(input)@.pos) ==> r is Ok && r->Ok_0@ == old(
            input,
        )@.ident_at(old(input)@.pos) && final(input)@.pos == old(input)@.pos + 1,
        !grammar::is_segment_at(old(input)@, old(input)@.pos) ==> r is Err && r->Err_0 == (Error {
            kind: ErrorKind::ExpectedIdent,
            span: old(input)@.span_at(old(input)@.pos),
        }),
{
    if peek_segment(input) {
        match input.parse_ident_or_word() {
            Some(id) => Ok(id),
            None => Err(Error::new(input.span(), ErrorKind::ExpectedIdent)),
        }
    } else {
        Err(Error::new(input.span(), ErrorKind::ExpectedIdent))
    }
}

impl Path {
    /// Parses the path at the cursor: segments separated by `::`, after a
    /// leading `::` or without one.
    #[verifier::loop_isolation(false)]
    pub fn parse<'a>(input: &mut Cursor<'a>) -> (r: Result<Path, Error>)
        ensures
            same_tokens(old(input)@, final(input)@),
            match grammar::parse_path(old(input)@) {
                Ok((path, pos)) => r is Ok && r->Ok_0@ == path && final(input)@.pos == pos,
                Err(e) => r is Err && r->Err_0 == e,
            },
    {
        reveal(grammar::parse_path);
        reveal(grammar::parse_path_tail);
        let ghost start = input@;
        let leading_colon = input.parse_operator(':', ':');
        let ghost first_pos = input@.pos;
        let first = match parse_segment(input) {
            Ok(first) => first,
            Err(e) => {
                return Err(e);
            },
        };
        let mut segments: Vec<Ident> = Vec::new();
        segments.push(first);
        assert(view_idents(segments@) =~= seq![start.ident_at(first_pos)]);
        while input.peek_operator(':', ':')
            invariant
                same_tokens(start, input@),
                grammar::parse_path_tail(start.at(first_pos + 1), seq![start.ident_at(first_pos)])
                    == grammar::parse_path_tail(input@, view_idents(segments@)),
            decreases input@.tokens.len() - input@.pos,
        {
            proof {
                input.lemma_len_fits();
            }
            input.advance(2);
            assert(input@ == start.at(input@.pos));
            let ghost before = view_idents(segments@);
            let segment = match parse_segment(input) {
                Ok(segment) => segment,
                Err(e) => {
                    return Err(e);
                },
            };
            segments.push(segment);
            assert(view_idents(segments@) =~= before.push(segment@));
        }
        Ok(Path { leading_colon, segments })
    }
}

impl WidgetFunc {
    /// Parses the constructor at the cursor: a path, and the argument list
    /// in parentheses if one follows the path.
    pub fn parse<'a>(input: &mut Cursor<'a>) -> (r: Result<WidgetFunc, Error>)
        ensures
            same_tokens(old(input)@, final(input)@),
            match grammar::parse_func(old(input)@) {
                Ok((func, pos)) => r is Ok && r->Ok_0@ == func && final(input)@.pos == pos,
                Err(e) => r is Err && r->Err_0 == e,
            },
    {
        reveal(grammar::parse_func);
        let path = match Path::parse(input) {
            Ok(path) => path,
            Err(e) => {
                return Err(e);
            },
        };
        let ghost at_args = input@;
        let args = match input.parse_group(Delimiter::Parenthesis) {
            Some(group) => {
                let mut group = group;
                let len = group.tokens.len();
                let tokens = group.take_until(len);
                assert(tokens@ =~= at_args.group_tokens_at(at_args.pos));
                Some(tokens)
            },
            None => None,
        };
        Ok(WidgetFunc { path, args })
    }

    /// Derives a name from the constructor: the segments of its path in
    /// lower case, each after an underscore, then an underscore and the
    /// number `names`, which is used up.
    pub fn snake_case_name(&self, names: &mut u16) -> (id: Ident)
        ensures
            id@ == grammar::snake_case_name(self@, *old(names)),
            *final(names) == grammar::next_name(*old(names)),
    {
        let mut parts: Vec<String> = Vec::new();
        let mut i: usize = 0;
        while i < self.path.segments.len()
            invariant
                i <= self.path.segments.len(),
                parts@.len() == i,
                forall|k: int|
                    0 <= k < i ==> (#[trigger] parts@[k])@ == lowercase(
                        self@.path.segments[k].name,
                    ),
            decreases self.path.segments.len() - i,
        {
            let segment = &self.path.segments[i];
            assert(self@.path.segments[i as int] == segment@);
            parts.push(to_lowercase(segment.name.as_str()));
            i += 1;
        }
        assert(view_strings(parts@) =~= grammar::lowered_segments(self@.path.segments));
        let number = take_name(names);
        let name = join_snake_case(&parts, number.as_str());
        Ident { name, span: self.path.span() }
    }
}

/// The text of each string, in order.
pub open spec fn view_strings(parts: Seq<String>) -> Seq<Seq<char>> {
    Seq::new(parts.len(), |i: int| parts[i]@)
}

/// Puts a derived name together: each of `parts` after an underscore, then
/// an underscore and `number`. `gtk` and `box` with `3` give `_gtk_box_3`.
pub fn join_snake_case(parts: &Vec<String>, number: &str) -> (name: String)
    ensures
        name@ == grammar::snake_case_text(view_strings(parts@), number@),
{
    proof {
        reveal_strlit("_");
    }
    let mut name = String::new();
    let mut i: usize = 0;
    while i < parts.len()
        invariant
            i <= parts.len(),
            "_"@ == seq!['_'],
            name@ == grammar::underscored(view_strings(parts@), i as int),
        decreases parts.len() - i,
    {
        name.append("_");
        name.append(parts[i].as_str());
        i += 1;
        assert(name@ =~= grammar::underscored(view_strings(parts@), i as int));
    }
    name.append("_");
    name.append(number);
    name
}

/// Uses up the number `names` and writes it out.
pub fn take_name(names: &mut u16) -> (digits: String)
    ensures
        digits@ == crate::text::decimal_digits(*old(names) as nat),
        *final(names) == grammar::next_name(*old(names)),
{
    let digits = decimal_string(*names as usize);
    if *names == u16::MAX {
        *names = 0;
    } else {
        *names = *names + 1;
    }
    digits
}

/// Makes up a name from a stem and the number `names`, which is used up.
pub fn numbered_name(stem: &str, names: &mut u16, span: Span) -> (id: Ident)
    ensures
        id@ == grammar::numbered_name(stem@, *old(names), span),
        *final(names) == grammar::next_name(*old(names)),
{
    let mut name = String::from_str(stem);
    let number = take_name(names);
    name.append(number.as_str());
    Ident { name, span }
}

} // verus!
