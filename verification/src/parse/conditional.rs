//! The parser of conditional widgets.

use crate::cursor::Cursor;
use crate::error::{Error, ErrorKind};
use crate::parse::func::numbered_name;
use crate::parse::grammar::{self, parses_as, same_tokens};
use crate::token::Delimiter;
use crate::widgets::{
    view_if_branches, view_match_arms, view_opt_attrs, view_opt_ident, Attr, Attrs,
    ConditionalBranches, ConditionalWidget, Ident, IfBranch, IfBranchView, IfCondition,
    MatchArm, MatchArmView, Widget,
};
use vstd::prelude::*;

verus! {

/// Reads the attributes of a conditional widget: the name that a `name`
/// attribute gives it, if any.
#[verifier::loop_isolation(false)]
pub fn process_conditional_attributes(attrs: Option<Attrs>) -> (r: Result<Option<Ident>, Error>)
    ensures
        match grammar::process_conditional_attributes(view_opt_attrs(attrs)) {
            Ok(v) => r is Ok && view_opt_ident(r->Ok_0) == v,
            Err(e) => r is Err && r->Err_0 == e,
        },
{
    reveal(grammar::process_conditional_attributes);
    reveal(grammar::conditional_attrs_prefix);
    let mut state: Option<Ident> = None;
    if let Some(attrs) = attrs {
        let mut i: usize = 0;
        while i < attrs.inner.len()
            invariant
                i <= attrs.inner.len(),
                grammar::conditional_attrs_prefix(attrs@, i as int) == Ok::<
                    Option<crate::widgets::IdentView>,
                    Error,
                >(view_opt_ident(state)),
            decreases attrs.inner.len() - i,
        {
            let attr = &attrs.inner[i];
            assert(attrs@[i as int] == attr@);
            proof {
                grammar::lemma_conditional_attrs_error(attrs@, i as int + 1, attrs@.len() as int);
            }
            match attr {
                Attr::Doc(_) => {},
                Attr::Name(_, name) => {
                    if state.is_some() {
                        return Err(Error::new(attr.span(), ErrorKind::AttributeTwice));
                    } else {
                        state = Some(name.clone());
                    }
                },
                _ => {
                    return Err(Error::new(attr.span(), ErrorKind::InvalidWidgetAttribute));
                },
            }
            i += 1;
        }
    }
    Ok(state)
}

/// Parses the widget of a branch: the only thing within the braces of the
/// branch.
fn parse_branch_widget<'a>(input: &mut Cursor<'a>, names: &mut u16) -> (r: Result<Widget, Error>)
    ensures
        parses_as(
            r,
            old(input)@,
            final(input)@,
            *final(names),
            grammar::parse_branch_widget(old(input)@, *old(names)),
        ),
    decreases old(input)@.tokens, 14int, 0int,
{
    reveal(grammar::parse_branch_widget);
    reveal(grammar::parse_widget);
    let attributes = match Attrs::parse(input) {
        Ok(attributes) => attributes,
        Err(e) => {
            return Err(e);
        },
    };
    let widget = match Widget::parse(input, attributes, None, names) {
        Ok(widget) => widget,
        Err(e) => {
            return Err(e);
        },
    };
    if !input.is_empty() {
        return Err(Error::new(input.span(), ErrorKind::UnexpectedToken));
    }
    Ok(widget)
}

/// Parses the branches of an `if` chain from the cursor on, after those in
/// `acc`.
#[verifier::rlimit(40)]
fn parse_if_branches<'a>(
    input: &mut Cursor<'a>,
    first: bool,
    names: &mut u16,
    acc: Vec<IfBranch>,
) -> (r: Result<Vec<IfBranch>, Error>)
    ensures
        same_tokens(old(input)@, final(input)@),
        match grammar::parse_if_branches(
            old(input)@,
            first,
            *old(names),
            view_if_branches(acc@),
        ) {
            Ok(p) => r is Ok && view_if_branches(r->Ok_0@) == p.value && final(input)@.pos
                == p.pos && *final(names) == p.names,
            Err(e) => r is Err && r->Err_0 == e,
        },
    decreases old(input)@.tokens, 15int, old(input)@.tokens.len() - old(input)@.pos,
{
    reveal(grammar::parse_if_branches);
    reveal(grammar::parse_branch_widget);
    let len = input.tokens.len();
    if first && !input.peek_word("if") {
        return Err(Error::new(input.span(), ErrorKind::ExpectedBranch));
    }
    if !first && !input.peek_word("else") {
        return Ok(acc);
    }
    let is_else = !first && !input.peek2_word("if");
    if first || is_else {
        input.advance(1);
    } else {
        input.advance(2);
    }
    let ghost start = input@.pos;
    let brace = input.find_brace();
    proof {
        crate::cursor::lemma_first_brace(input@.tokens, start);
    }
    if brace >= len {
        input.seek(brace);
        return Err(Error::new(input.span(), ErrorKind::ExpectedBraces));
    }
    if is_else && brace != input.pos {
        return Err(Error::new(input.span(), ErrorKind::ExpectedBraces));
    }
    if !is_else && brace == input.pos {
        return Err(Error::new(input.span(), ErrorKind::UnexpectedToken));
    }
    let cond_tokens = input.take_until(brace);
    let mut inner = match input.parse_group(Delimiter::Brace) {
        Some(inner) => inner,
        None => {
            return Err(Error::new(input.span(), ErrorKind::ExpectedBraces));
        },
    };
    let widget = match parse_branch_widget(&mut inner, names) {
        Ok(widget) => widget,
        Err(e) => {
            return Err(e);
        },
    };
    let cond = if first {
        IfCondition::If(cond_tokens)
    } else if is_else {
        IfCondition::Else
    } else {
        IfCondition::ElseIf(cond_tokens)
    };
    let branch = IfBranch { cond, widget };
    let ghost before = view_if_branches(acc@);
    let mut acc = acc;
    acc.push(branch);
    assert(view_if_branches(acc@) =~= before.push(
        IfBranchView { cond: branch.cond@, widget: branch.widget@ },
    ));
    if is_else {
        Ok(acc)
    } else {
        parse_if_branches(input, false, names, acc)
    }
}

/// Parses the arms of a `match` from the cursor on, after those in `acc`.
#[verifier::rlimit(40)]
fn parse_match_arms<'a>(input: &mut Cursor<'a>, names: &mut u16, acc: Vec<MatchArm>) -> (r: Result<
    Vec<MatchArm>,
    Error,
>)
    ensures
        same_tokens(old(input)@, final(input)@),
        match grammar::parse_match_arms(
            old(input)@,
            *old(names),
            view_match_arms(acc@),
        ) {
            Ok(p) => r is Ok && view_match_arms(r->Ok_0@) == p.value && final(input)@.pos
                == p.pos && *final(names) == p.names,
            Err(e) => r is Err && r->Err_0 == e,
        },
    decreases old(input)@.tokens, 15int, old(input)@.tokens.len() - old(input)@.pos,
{
    reveal(grammar::parse_match_arms);
    reveal(grammar::parse_widget);
    let len = input.tokens.len();
    if input.is_empty() {
        return Ok(acc);
    }
    let ghost pos = input@.pos;
    let arrow = input.find_fat_arrow();
    proof {
        crate::cursor::lemma_first_fat_arrow(input@.tokens, pos);
    }
    if arrow >= len {
        let mut end = input.fork();
        end.seek(arrow);
        return Err(Error::new(end.span(), ErrorKind::ExpectedFatArrow));
    }
    let guard_at = input.find_if(arrow);
    if guard_at == input.pos {
        return Err(Error::new(input.span(), ErrorKind::UnexpectedToken));
    }
    let pattern = input.take_until(guard_at);
    let guard = if guard_at < arrow {
        input.advance(1);
        Some(input.take_until(arrow))
    } else {
        None
    };
    input.advance(2);
    let end = input.find_comma();
    proof {
        crate::cursor::lemma_first_comma(input@.tokens, arrow + 2);
    }
    let attributes = match Attrs::parse(input) {
        Ok(attributes) => attributes,
        Err(e) => {
            return Err(e);
        },
    };
    let widget = match Widget::parse(input, attributes, None, names) {
        Ok(widget) => widget,
        Err(e) => {
            return Err(e);
        },
    };
    if input.pos != end {
        return Err(Error::new(input.span(), ErrorKind::UnexpectedToken));
    }
    let arm = MatchArm { pattern, guard, widget };
    let ghost before = view_match_arms(acc@);
    let mut acc = acc;
    acc.push(arm);
    assert(view_match_arms(acc@) =~= before.push(arm@));
    if end < len {
        input.seek(end + 1);
        parse_match_arms(input, names, acc)
    } else {
        Ok(acc)
    }
}

impl ConditionalWidget {
    /// Parses the conditional widget at the cursor, which stands at `if` or
    /// at `match`. Its name is the one given by a `name` attribute, or
    /// else a generated one.
    #[verifier::rlimit(40)]
    pub fn parse<'a>(input: &mut Cursor<'a>, attributes: Option<Attrs>, names: &mut u16) -> (r:
        Result<ConditionalWidget, Error>)
        ensures
            parses_as(
                r,
                old(input)@,
                final(input)@,
                *final(names),
                grammar::parse_conditional_widget(
                    old(input)@,
                    view_opt_attrs(attributes),
                    *old(names),
                ),
            ),
        decreases old(input)@.tokens, 16int, 0int,
    {
        reveal(grammar::parse_conditional_widget);
        reveal(grammar::parse_if_branches);
        reveal(grammar::parse_match_arms);
        let len = input.tokens.len();
        let attr_name = match process_conditional_attributes(attributes) {
            Ok(attr_name) => attr_name,
            Err(e) => {
                return Err(e);
            },
        };
        let name = match attr_name {
            Some(name) => name,
            None => numbered_name("_conditional_widget_", names, input.span()),
        };
        if input.peek_word("if") {
            let acc: Vec<IfBranch> = Vec::new();
            assert(view_if_branches(acc@) =~= Seq::<IfBranchView>::empty());
            match parse_if_branches(input, true, names, acc) {
                Ok(branches) => Ok(
                    ConditionalWidget { name, branches: ConditionalBranches::If(branches) },
                ),
                Err(e) => Err(e),
            }
        } else if input.peek_word("match") {
            input.advance(1);
            let ghost start = input@.pos;
            let brace = input.find_brace();
            proof {
                crate::cursor::lemma_first_brace(input@.tokens, start);
            }
            if brace >= len {
                input.seek(brace);
                return Err(Error::new(input.span(), ErrorKind::ExpectedBraces));
            }
            if brace == input.pos {
                return Err(Error::new(input.span(), ErrorKind::UnexpectedToken));
            }
            let expr = input.take_until(brace);
            let mut inner = match input.parse_group(Delimiter::Brace) {
                Some(inner) => inner,
                None => {
                    return Err(Error::new(input.span(), ErrorKind::ExpectedBraces));
                },
            };
            let acc: Vec<MatchArm> = Vec::new();
            assert(view_match_arms(acc@) =~= Seq::<MatchArmView>::empty());
            match parse_match_arms(&mut inner, names, acc) {
                Ok(arms) => Ok(
                    ConditionalWidget { name, branches: ConditionalBranches::Match(expr, arms) },
                ),
                Err(e) => Err(e),
            }
        } else {
            Err(Error::new(input.span(), ErrorKind::ExpectedBranch))
        }
    }
}

} // verus!
