//! The parser of property blocks.

use crate::cursor::Cursor;
use crate::error::{Error, ErrorKind};
use crate::parse::grammar::{self, same_tokens};
use crate::widgets::{
    view_properties, Ident, Properties, Property, PropertyName, PropertyType, PropertyView,
};
use vstd::prelude::*;

verus! {

/// The property that stands for what could not be parsed.
fn error_property(e: Error) -> (p: Property)
    ensures
        p@ == grammar::error_property(e),
{
    Property {
        name: PropertyName::Ident(Ident::new("invalid", e.span)),
        ty: PropertyType::ParseError(e),
    }
}

impl Properties {
    /// Parses the properties from the cursor to the end of the block. Each
    /// runs up to the next comma; what is no property between two commas
    /// is kept as a property that holds the diagnostic, and does not use up
    /// a name.
    #[verifier::loop_isolation(false)]
    pub fn parse<'a>(input: &mut Cursor<'a>, names: &mut u16) -> (ps: Properties)
        ensures
            same_tokens(old(input)@, final(input)@),
            (ps@, *final(names)) == grammar::parse_properties(old(input)@, *old(names)),
        decreases old(input)@.tokens, 20int, 0int,
    {
        reveal(grammar::parse_properties);
        reveal(grammar::parse_properties_from);
        reveal(grammar::parse_property);
        let ghost start = input@;
        let ghost names0 = *names;
        let mut properties: Vec<Property> = Vec::new();
        assert(view_properties(properties@) =~= Seq::<PropertyView>::empty());
        let len = input.tokens.len();
        while !input.is_empty()
            invariant
                same_tokens(start, input@),
                grammar::parse_properties_from(start, names0, Seq::empty())
                    == grammar::parse_properties_from(
                    input@,
                    *names,
                    view_properties(properties@),
                ),
            decreases input@.tokens.len() - input@.pos,
        {
            let end = input.find_comma();
            let saved = *names;
            let mut attempt = input.fork();
            assert(attempt@ == start.at(input@.pos));
            let property = match Property::parse(&mut attempt, names) {
                Ok(property) => {
                    if attempt.pos == end {
                        property
                    } else {
                        *names = saved;
                        error_property(Error::new(attempt.span(), ErrorKind::UnexpectedToken))
                    }
                },
                Err(e) => {
                    *names = saved;
                    error_property(e)
                },
            };
            let ghost before = view_properties(properties@);
            properties.push(property);
            assert(view_properties(properties@) =~= before.push(property@));
            if end < len {
                input.seek(end + 1);
            } else {
                input.seek(end);
            }
        }
        Properties { properties }
    }
}

} // verus!
