//! The parser of one property.

use crate::cursor::Cursor;
use crate::error::{Error, ErrorKind};
use crate::parse::grammar::{self, parses_as};
use crate::token::{Delimiter, TokenKind, TokenStream};
use crate::widgets::{
    view_opt_attrs, AssignProperty, AssignPropertyAttr, Attr, Attrs, ConditionalWidget,
    Property, PropertyName, PropertyType, SignalHandler, Widget, WidgetFunc,
};
use vstd::prelude::*;

verus! {

/// Makes the name of a property from what was read as a constructor.
fn property_name(func: WidgetFunc) -> (r: Result<PropertyName, Error>)
    ensures
        match grammar::property_name(func@) {
            Ok(name) => r is Ok && r->Ok_0@ == name,
            Err(e) => r is Err && r->Err_0 == e,
        },
{
    reveal(grammar::property_name);
    if func.args.is_some() {
        return Err(Error::new(func.path.span(), ErrorKind::UnexpectedArguments));
    }
    let single = match func.path.get_ident() {
        Some(id) => Some(id.clone()),
        None => None,
    };
    match single {
        Some(id) => Ok(PropertyName::Ident(id)),
        None => Ok(PropertyName::Path(func.path)),
    }
}

/// Whether a guard is written to follow the model's name.
fn guard_pastes_model(guard: &TokenStream) -> (b: bool)
    ensures
        b == grammar::guard_pastes_model(guard@),
{
    if guard.tokens.len() > 0 {
        match &guard.tokens[0].kind {
            TokenKind::Punct(ch, _) => *ch == '.',
            _ => false,
        }
    } else {
        false
    }
}

/// Reads the attributes of an assignment: `watch`, or `track` with its
/// guard, or neither.
#[verifier::loop_isolation(false)]
pub fn process_assign_attributes(attrs: Option<Attrs>) -> (r: Result<AssignPropertyAttr, Error>)
    ensures
        match grammar::process_assign_attributes(view_opt_attrs(attrs)) {
            Ok(v) => r is Ok && r->Ok_0@ == v,
            Err(e) => r is Err && r->Err_0 == e,
        },
{
    reveal(grammar::process_assign_attributes);
    reveal(grammar::assign_attrs_prefix);
    let mut state = AssignPropertyAttr::Plain;
    if let Some(attrs) = attrs {
        let mut i: usize = 0;
        while i < attrs.inner.len()
            invariant
                i <= attrs.inner.len(),
                grammar::assign_attrs_prefix(attrs@, i as int) == Ok::<
                    crate::widgets::AssignPropertyAttrView,
                    Error,
                >(state@),
            decreases attrs.inner.len() - i,
        {
            let attr = &attrs.inner[i];
            assert(attrs@[i as int] == attr@);
            proof {
                grammar::lemma_assign_attrs_error(attrs@, i as int + 1, attrs@.len() as int);
            }
            let is_plain = match &state {
                AssignPropertyAttr::Plain => true,
                _ => false,
            };
            match attr {
                Attr::Watch(_) => {
                    if is_plain {
                        state = AssignPropertyAttr::Watch;
                    } else {
                        return Err(Error::new(attr.span(), ErrorKind::AttributeTwice));
                    }
                },
                Attr::Track(_, guard) => {
                    if is_plain {
                        let paste_model = guard_pastes_model(guard);
                        state = AssignPropertyAttr::Track(guard.clone(), paste_model);
                    } else {
                        return Err(Error::new(attr.span(), ErrorKind::AttributeTwice));
                    }
                },
                _ => {
                    return Err(Error::new(attr.span(), ErrorKind::InvalidPropertyAttribute));
                },
            }
            i += 1;
        }
    }
    Ok(state)
}

/// Parses what follows the name of a property.
#[verifier::rlimit(40)]
fn parse_property_value<'a>(
    input: &mut Cursor<'a>,
    name: PropertyName,
    attributes: Option<Attrs>,
    names: &mut u16,
) -> (r: Result<Property, Error>)
    ensures
        parses_as(
            r,
            old(input)@,
            final(input)@,
            *final(names),
            grammar::parse_property_value(
                old(input)@,
                name@,
                view_opt_attrs(attributes),
                *old(names),
            ),
        ),
    decreases old(input)@.tokens, 17int, 0int,
{
    reveal(grammar::parse_property_value);
    reveal(grammar::parse_conditional_widget);
    reveal(grammar::parse_widget);
    let len = input.tokens.len();
    if input.peek_operator('=', '>') {
        input.advance(2);
        let end = input.find_comma();
        if end == input.pos {
            return Err(Error::new(input.span(), ErrorKind::UnexpectedToken));
        }
        let handler = input.take_until(end);
        Ok(Property { name, ty: PropertyType::SignalHandler(SignalHandler { handler }) })
    } else if input.peek_punct(':') && !input.peek3_assignment() {
        input.advance(1);
        let end = input.find_comma();
        let attr = match process_assign_attributes(attributes) {
            Ok(attr) => attr,
            Err(e) => {
                return Err(e);
            },
        };
        if end == input.pos {
            return Err(Error::new(input.span(), ErrorKind::UnexpectedToken));
        }
        let expr = input.take_until(end);
        Ok(Property { name, ty: PropertyType::Assign(AssignProperty { attr, expr }) })
    } else if input.peek_punct(':') || input.peek_punct('=') {
        input.advance(1);
        if input.peek_word("if") || input.peek_word("match") {
            match ConditionalWidget::parse(input, attributes, names) {
                Ok(cond_widget) => Ok(
                    Property { name, ty: PropertyType::ConditionalWidget(cond_widget) },
                ),
                Err(e) => Err(e),
            }
        } else {
            match Widget::parse(input, attributes, None, names) {
                Ok(widget) => Ok(Property { name, ty: PropertyType::Widget(widget) }),
                Err(e) => Err(e),
            }
        }
    } else {
        Err(Error::new(input.span(), ErrorKind::UnexpectedToken))
    }
}

impl Property {
    /// Parses the property at the cursor.
    pub fn parse<'a>(input: &mut Cursor<'a>, names: &mut u16) -> (r: Result<Property, Error>)
        ensures
            parses_as(
                r,
                old(input)@,
                final(input)@,
                *final(names),
                grammar::parse_property(old(input)@, *old(names)),
            ),
        decreases old(input)@.tokens, 18int, 0int,
    {
        reveal(grammar::parse_property);
        reveal(grammar::parse_conditional_widget);
        reveal(grammar::parse_for_container_ext);
        reveal(grammar::parse_property_value);
        let attributes = match Attrs::parse(input) {
            Ok(attributes) => attributes,
            Err(e) => {
                return Err(e);
            },
        };
        if input.peek_word("if") || input.peek_word("match") {
            return match ConditionalWidget::parse(input, attributes, names) {
                Ok(cond_widget) => Ok(
                    Property {
                        name: PropertyName::RelmContainerExtAssign,
                        ty: PropertyType::ConditionalWidget(cond_widget),
                    },
                ),
                Err(e) => Err(e),
            };
        }
        let func = match WidgetFunc::parse(input) {
            Ok(func) => func,
            Err(e) => {
                return Err(e);
            },
        };
        if input.peek_group(Delimiter::Brace) || input.peek_operator('-', '>') || input.peek_punct(
            ',',
        ) {
            match Widget::parse_for_container_ext(input, func, attributes, names) {
                Ok(widget) => Ok(
                    Property {
                        name: PropertyName::RelmContainerExtAssign,
                        ty: PropertyType::Widget(widget),
                    },
                ),
                Err(e) => Err(e),
            }
        } else {
            let name = match property_name(func) {
                Ok(name) => name,
                Err(e) => {
                    return Err(e);
                },
            };
            parse_property_value(input, name, attributes, names)
        }
    }
}

} // verus!
