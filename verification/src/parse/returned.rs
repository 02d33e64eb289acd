//! The parser of returned widgets.

use crate::cursor::Cursor;
use crate::error::{Error, ErrorKind};
use crate::parse::func::numbered_name;
use crate::parse::grammar::{self, parses_as};
use crate::token::Delimiter;
use crate::widgets::{Properties, ReturnedWidget};
use vstd::prelude::*;

verus! {

impl ReturnedWidget {
    /// Parses the returned widget at the cursor, which stands after `->`:
    /// a name, if one is given, and a property block.
    pub fn parse<'a>(input: &mut Cursor<'a>, names: &mut u16) -> (r: Result<
        ReturnedWidget,
        Error,
    >)
        ensures
            parses_as(
                r,
                old(input)@,
                final(input)@,
                *final(names),
                grammar::parse_returned_widget(old(input)@, *old(names)),
            ),
        decreases old(input)@.tokens, 12int, 0int,
    {
        reveal(grammar::parse_returned_widget);
        reveal(grammar::parse_properties);
        let given = if input.peek_ident() {
            match input.parse_ident() {
                Ok(name) => Some(name),
                Err(e) => {
                    return Err(e);
                },
            }
        } else {
            None
        };
        let span = input.span();
        let mut inner = match input.parse_group(Delimiter::Brace) {
            Some(inner) => inner,
            None => {
                return Err(Error::new(span, ErrorKind::ExpectedBraces));
            },
        };
        let name = match given {
            Some(name) => name,
            None => numbered_name("_returned_widget_", names, span),
        };
        let properties = Properties::parse(&mut inner, names);
        Ok(ReturnedWidget { name, properties })
    }
}

} // verus!
