//! The widget grammar, as functions from a position in a token sequence to
//! what stands there.
//!
//! Each function takes a cursor and says what a parser that starts at the
//! cursor's position finds: a value together with the position after it, or
//! the first diagnostic. The functions that can meet a widget without a
//! name also take the number that the next generated name will carry, and
//! hand back the number after them.
//!
//! A widget is written as
//!
//! ```text
//! [mut] [name =] [Some(] [&] [*] path [(args)] [)] { properties } [-> [name] { properties }]
//! ```
//!
//! and the properties of a block are separated by commas. A property is one
//! of
//!
//! ```text
//! [attributes] name: expression
//! [attributes] name = widget
//! [attributes] name: name = widget
//! [attributes] name = if cond { widget } else if cond { widget } else { widget }
//! [attributes] name = match expr { pattern [if guard] => widget, ... }
//! [attributes] if ... | match ...
//! [attributes] path [(args)] { properties }
//! name => handler
//! ```
//!
//! What stands between two commas and is none of these becomes a property
//! that holds the diagnostic, and the properties after it are parsed as if
//! nothing had happened.

use crate::cursor::CursorView;
use crate::error::{Error, ErrorKind};
use crate::text::{decimal_digits, lowercase};
use crate::token::{Delimiter, Span, TokenKindView, TokenView};
use crate::widgets::{
    AssignPropertyAttrView, AssignPropertyView, AttrView, ConditionalBranchesView,
    ConditionalWidgetView, IdentView, IfBranchView, IfConditionView, MatchArmView, PathView,
    PropertyNameView, PropertyTypeView, PropertyView, ReturnedWidgetView, SignalHandlerView,
    WidgetAttr, WidgetFuncView, WidgetView,
};
use vstd::prelude::*;

verus! {

/// What a parser found: the value, the position after it, and the number of
/// the next generated name.
pub struct Parsed<T> {
    pub value: T,
    pub pos: int,
    pub names: u16,
}

/// The failure with a diagnostic of kind `kind` at `span`.
pub open spec fn error<T>(kind: ErrorKind, span: Span) -> Result<T, Error> {
    Err(Error { kind, span })
}

// ---------------------------------------------------------------------
// Attributes
// ---------------------------------------------------------------------
/// An attribute made of its keyword alone.
pub open spec fn bare_attr(inner: CursorView, attr: AttrView) -> Result<AttrView, Error> {
    if inner.has(1) {
        error(ErrorKind::UnexpectedToken, inner.span_at(1))
    } else {
        Ok(attr)
    }
}

/// The attribute at the cursor: a `#` and a group in square brackets that
/// holds the keyword of the attribute and, for `track` and `name`, its
/// argument in parentheses.
#[verifier::opaque]
pub open spec fn parse_attr(c: CursorView) -> Result<AttrView, Error> {
    let i = c.pos;
    let inner = c.enter(i + 1);
    if !c.is_punct_at(i, '#') {
        error(ErrorKind::ExpectedAttribute, c.span_at(i))
    } else if !c.is_group_at(i + 1, Delimiter::Bracket) {
        error(ErrorKind::ExpectedAttribute, c.span_at(i + 1))
    } else if !inner.has(0) || !(inner.tokens[0].kind is Ident) {
        error(ErrorKind::ExpectedIdent, inner.span_at(0))
    } else {
        let kw = inner.ident_at(0);
        if kw.name == "local"@ {
            bare_attr(inner, AttrView::Local(kw))
        } else if kw.name == "local_ref"@ {
            bare_attr(inner, AttrView::LocalRef(kw))
        } else if kw.name == "root"@ {
            bare_attr(inner, AttrView::Root(kw))
        } else if kw.name == "watch"@ {
            bare_attr(inner, AttrView::Watch(kw))
        } else if kw.name == "track"@ {
            if !inner.is_group_at(1, Delimiter::Parenthesis) {
                error(ErrorKind::ExpectedParentheses, inner.span_at(1))
            } else if inner.has(2) {
                error(ErrorKind::UnexpectedToken, inner.span_at(2))
            } else {
                Ok(AttrView::Track(kw, inner.group_tokens_at(1)))
            }
        } else if kw.name == "name"@ {
            if !inner.is_group_at(1, Delimiter::Parenthesis) {
                error(ErrorKind::ExpectedParentheses, inner.span_at(1))
            } else if inner.has(2) {
                error(ErrorKind::UnexpectedToken, inner.span_at(2))
            } else {
                let arg = inner.enter(1);
                if !arg.is_ident_at(0) {
                    error(ErrorKind::ExpectedIdent, arg.span_at(0))
                } else if arg.has(1) {
                    error(ErrorKind::UnexpectedToken, arg.span_at(1))
                } else {
                    Ok(AttrView::Name(kw, arg.ident_at(0)))
                }
            }
        } else if kw.name == "doc"@ {
            Ok(AttrView::Doc(c.range(i, i + 2)))
        } else {
            error(ErrorKind::UnknownAttribute, kw.span)
        }
    }
}

/// An attribute takes up two tokens.
pub proof fn lemma_attr_has_group(c: CursorView)
    ensures
        parse_attr(c) is Ok ==> c.is_punct_at(c.pos, '#') && c.is_group_at(
            c.pos + 1,
            Delimiter::Bracket,
        ),
{
    reveal(parse_attr);
}

/// The attributes from the cursor on, after those in `acc`: as long as a
/// `#` follows, an attribute must stand there.
#[verifier::opaque]
pub open spec fn parse_attrs_from(c: CursorView, acc: Seq<AttrView>) -> Result<
    (Seq<AttrView>, int),
    Error,
>
    decreases c.tokens.len() - c.pos,
{
    if !c.is_punct_at(c.pos, '#') {
        Ok((acc, c.pos))
    } else {
        match parse_attr(c) {
            Err(e) => Err(e),
            Ok(attr) => {
                proof {
                    lemma_attr_has_group(c);
                }
                parse_attrs_from(c.at(c.pos + 2), acc.push(attr))
            },
        }
    }
}

/// The attribute list at the cursor, if one starts there.
#[verifier::opaque]
pub open spec fn parse_opt_attrs(c: CursorView) -> Result<(Option<Seq<AttrView>>, int), Error> {
    if !c.is_punct_at(c.pos, '#') {
        Ok((None, c.pos))
    } else {
        match parse_attrs_from(c, Seq::empty()) {
            Err(e) => Err(e),
            Ok((attrs, pos)) => Ok((Some(attrs), pos)),
        }
    }
}

/// What the attributes of a widget say: whether it is a local variable, its
/// doc comment and its name.
pub struct WidgetAttrsView {
    pub attr: WidgetAttr,
    pub doc_attr: Option<Seq<TokenView>>,
    pub name: Option<IdentView>,
}

/// Takes one more attribute into account. `local` and `local_ref` exclude
/// each other and may stand once, a name may be given once, doc comments
/// add up, and a widget can have no other attribute.
pub open spec fn widget_attr_step(state: WidgetAttrsView, attr: AttrView) -> Result<
    WidgetAttrsView,
    Error,
> {
    match attr {
        AttrView::Local(_) => if state.attr == WidgetAttr::Plain {
            Ok(WidgetAttrsView { attr: WidgetAttr::Local, ..state })
        } else {
            error(ErrorKind::AttributeTwice, attr.span())
        },
        AttrView::LocalRef(_) => if state.attr == WidgetAttr::Plain {
            Ok(WidgetAttrsView { attr: WidgetAttr::LocalRef, ..state })
        } else {
            error(ErrorKind::AttributeTwice, attr.span())
        },
        AttrView::Doc(tokens) => Ok(
            WidgetAttrsView {
                doc_attr: match state.doc_attr {
                    Some(doc) => Some(doc + tokens),
                    None => Some(tokens),
                },
                ..state
            },
        ),
        AttrView::Name(_, name) => if state.name is Some {
            error(ErrorKind::AttributeTwice, attr.span())
        } else {
            Ok(WidgetAttrsView { name: Some(name), ..state })
        },
        _ => error(ErrorKind::InvalidWidgetAttribute, attr.span()),
    }
}

/// What the first `n` attributes of a widget say, or the first diagnostic
/// among them.
#[verifier::opaque]
pub open spec fn widget_attrs_prefix(attrs: Seq<AttrView>, n: int) -> Result<
    WidgetAttrsView,
    Error,
>
    decreases n,
{
    if n <= 0 {
        Ok(WidgetAttrsView { attr: WidgetAttr::Plain, doc_attr: None, name: None })
    } else {
        match widget_attrs_prefix(attrs, n - 1) {
            Err(e) => Err(e),
            Ok(state) => widget_attr_step(state, attrs[n - 1]),
        }
    }
}

/// A diagnostic among the first `k` attributes is the diagnostic of every
/// longer prefix.
pub proof fn lemma_widget_attrs_error(attrs: Seq<AttrView>, k: int, n: int)
    requires
        k <= n,
    ensures
        widget_attrs_prefix(attrs, k) is Err ==> widget_attrs_prefix(attrs, n)
            == widget_attrs_prefix(attrs, k),
    decreases n - k,
{
    reveal(widget_attrs_prefix);
    if k < n && widget_attrs_prefix(attrs, k) is Err {
        lemma_widget_attrs_error(attrs, k, n - 1);
    }
}

/// What the attributes of a widget say.
#[verifier::opaque]
pub open spec fn process_attributes(attrs: Option<Seq<AttrView>>) -> Result<
    WidgetAttrsView,
    Error,
> {
    match attrs {
        Some(attrs) => widget_attrs_prefix(attrs, attrs.len() as int),
        None => Ok(WidgetAttrsView { attr: WidgetAttr::Plain, doc_attr: None, name: None }),
    }
}

/// Whether a guard is written to follow the model's name: it starts with
/// a dot.
pub open spec fn guard_pastes_model(guard: Seq<TokenView>) -> bool {
    guard.len() > 0 && match guard[0].kind {
        TokenKindView::Punct(ch, _) => ch == '.',
        _ => false,
    }
}

/// Takes one more attribute of an assignment into account: `watch` and
/// `track` exclude each other and may stand once, and an assignment can
/// have no other attribute.
pub open spec fn assign_attr_step(state: AssignPropertyAttrView, attr: AttrView) -> Result<
    AssignPropertyAttrView,
    Error,
> {
    match attr {
        AttrView::Watch(_) => if state is Plain {
            Ok(AssignPropertyAttrView::Watch)
        } else {
            error(ErrorKind::AttributeTwice, attr.span())
        },
        AttrView::Track(_, guard) => if state is Plain {
            Ok(AssignPropertyAttrView::Track(guard, guard_pastes_model(guard)))
        } else {
            error(ErrorKind::AttributeTwice, attr.span())
        },
        _ => error(ErrorKind::InvalidPropertyAttribute, attr.span()),
    }
}

/// What the first `n` attributes of an assignment say, or the first
/// diagnostic among them.
#[verifier::opaque]
pub open spec fn assign_attrs_prefix(attrs: Seq<AttrView>, n: int) -> Result<
    AssignPropertyAttrView,
    Error,
>
    decreases n,
{
    if n <= 0 {
        Ok(AssignPropertyAttrView::Plain)
    } else {
        match assign_attrs_prefix(attrs, n - 1) {
            Err(e) => Err(e),
            Ok(state) => assign_attr_step(state, attrs[n - 1]),
        }
    }
}

/// A diagnostic among the first `k` attributes is the diagnostic of every
/// longer prefix.
pub proof fn lemma_assign_attrs_error(attrs: Seq<AttrView>, k: int, n: int)
    requires
        k <= n,
    ensures
        assign_attrs_prefix(attrs, k) is Err ==> assign_attrs_prefix(attrs, n)
            == assign_attrs_prefix(attrs, k),
    decreases n - k,
{
    reveal(assign_attrs_prefix);
    if k < n && assign_attrs_prefix(attrs, k) is Err {
        lemma_assign_attrs_error(attrs, k, n - 1);
    }
}

/// What the attributes of an assignment say.
#[verifier::opaque]
pub open spec fn process_assign_attributes(attrs: Option<Seq<AttrView>>) -> Result<
    AssignPropertyAttrView,
    Error,
> {
    match attrs {
        Some(attrs) => assign_attrs_prefix(attrs, attrs.len() as int),
        None => Ok(AssignPropertyAttrView::Plain),
    }
}

// ---------------------------------------------------------------------
// Paths and constructors
// ---------------------------------------------------------------------
/// Whether token `i` can be a segment of a path: an identifier, or one of
/// the words that name a place in the module tree.
pub open spec fn is_segment_at(c: CursorView, i: int) -> bool {
    ||| c.is_ident_at(i)
    ||| c.is_word_at(i, "crate"@)
    ||| c.is_word_at(i, "self"@)
    ||| c.is_word_at(i, "super"@)
    ||| c.is_word_at(i, "Self"@)
}

/// The segments of a path after those in `acc`: as long as `::` follows, a
/// segment must follow it.
#[verifier::opaque]
pub open spec fn parse_path_tail(c: CursorView, acc: Seq<IdentView>) -> Result<
    (Seq<IdentView>, int),
    Error,
>
    decreases c.tokens.len() - c.pos,
{
    if !c.is_operator_at(c.pos, ':', ':') {
        Ok((acc, c.pos))
    } else if !is_segment_at(c, c.pos + 2) {
        error(ErrorKind::ExpectedIdent, c.span_at(c.pos + 2))
    } else {
        parse_path_tail(c.at(c.pos + 3), acc.push(c.ident_at(c.pos + 2)))
    }
}

/// The segments that were read are kept: what comes out starts with `acc`.
pub proof fn lemma_path_tail_keeps(c: CursorView, acc: Seq<IdentView>)
    ensures
        parse_path_tail(c, acc) matches Ok((segments, _)) ==> segments.len() >= acc.len()
            && segments.subrange(0, acc.len() as int) == acc,
    decreases c.tokens.len() - c.pos,
{
    reveal(parse_path_tail);
    if c.is_operator_at(c.pos, ':', ':') && is_segment_at(c, c.pos + 2) {
        let next = acc.push(c.ident_at(c.pos + 2));
        lemma_path_tail_keeps(c.at(c.pos + 3), next);
        if parse_path_tail(c, acc) is Ok {
            let segments = parse_path_tail(c, acc)->Ok_0.0;
            assert(segments.subrange(0, acc.len() as int) =~= segments.subrange(
                0,
                next.len() as int,
            ).subrange(0, acc.len() as int));
            assert(next.subrange(0, acc.len() as int) =~= acc);
        }
    } else {
        assert(acc.subrange(0, acc.len() as int) =~= acc);
    }
}

/// The path at the cursor.
#[verifier::opaque]
pub open spec fn parse_path(c: CursorView) -> Result<(PathView, int), Error> {
    let leading_colon = c.is_operator_at(c.pos, ':', ':');
    let first = if leading_colon {
        c.pos + 2
    } else {
        c.pos
    };
    if !is_segment_at(c, first) {
        error(ErrorKind::ExpectedIdent, c.span_at(first))
    } else {
        match parse_path_tail(c.at(first + 1), seq![c.ident_at(first)]) {
            Err(e) => Err(e),
            Ok((segments, pos)) => Ok((PathView { leading_colon, segments }, pos)),
        }
    }
}

/// The constructor at the cursor: a path, and the argument list if one
/// follows the path.
#[verifier::opaque]
pub open spec fn parse_func(c: CursorView) -> Result<(WidgetFuncView, int), Error> {
    match parse_path(c) {
        Err(e) => Err(e),
        Ok((path, pos)) => if c.is_group_at(pos, Delimiter::Parenthesis) {
            Ok((WidgetFuncView { path, args: Some(c.group_tokens_at(pos)) }, pos + 1))
        } else {
            Ok((WidgetFuncView { path, args: None }, pos))
        },
    }
}

/// What stands before the property block of a widget.
pub struct FuncLayout {
    /// The `Some` of a constructor written as `Some(...)`.
    pub wrapper: Option<IdentView>,
    pub ref_token: bool,
    pub deref_token: bool,
    pub func: WidgetFuncView,
    /// The index of the property block.
    pub brace: int,
}

/// The constructor at the cursor with the markers `&` and `*` before it.
#[verifier::opaque]
pub open spec fn parse_marked_func(c: CursorView) -> Result<
    (bool, bool, WidgetFuncView, int),
    Error,
> {
    let ref_token = c.is_punct_at(c.pos, '&');
    let after_ref = if ref_token {
        c.pos + 1
    } else {
        c.pos
    };
    let deref_token = c.is_punct_at(after_ref, '*');
    let after_deref = if deref_token {
        after_ref + 1
    } else {
        after_ref
    };
    match parse_func(c.at(after_deref)) {
        Err(e) => Err(e),
        Ok((func, pos)) => Ok((ref_token, deref_token, func, pos)),
    }
}

/// Whether the constructor at the cursor is written as `Some(...)`: the
/// word `Some` with a group in parentheses directly after it.
pub open spec fn has_wrapper(c: CursorView) -> bool {
    c.is_word_at(c.pos, "Some"@) && c.is_group_at(c.pos + 1, Delimiter::Parenthesis)
}

/// The constructor of the widget at the cursor, up to its property block.
/// In the form `Some(...)` the parentheses hold the markers and the
/// constructor and nothing else. The property block is required.
#[verifier::opaque]
pub open spec fn parse_func_layout(c: CursorView) -> Result<FuncLayout, Error> {
    if has_wrapper(c) {
        let inner = c.enter(c.pos + 1);
        match parse_marked_func(inner) {
            Err(e) => Err(e),
            Ok((ref_token, deref_token, func, end)) => if inner.has(end) {
                error(ErrorKind::UnexpectedToken, inner.span_at(end))
            } else if !c.is_group_at(c.pos + 2, Delimiter::Brace) {
                error(ErrorKind::ExpectedBraces, c.span_at(c.pos + 2))
            } else {
                Ok(
                    FuncLayout {
                        wrapper: Some(c.ident_at(c.pos)),
                        ref_token,
                        deref_token,
                        func,
                        brace: c.pos + 2,
                    },
                )
            },
        }
    } else {
        match parse_marked_func(c) {
            Err(e) => Err(e),
            Ok((ref_token, deref_token, func, end)) => if !c.is_group_at(end, Delimiter::Brace) {
                error(ErrorKind::ExpectedBraces, c.span_at(end))
            } else {
                Ok(FuncLayout { wrapper: None, ref_token, deref_token, func, brace: end })
            },
        }
    }
}

/// The property block that a layout points at is a group in braces.
pub proof fn lemma_layout_brace(c: CursorView)
    ensures
        parse_func_layout(c) matches Ok(layout) ==> c.is_group_at(layout.brace, Delimiter::Brace),
{
    reveal(parse_func_layout);
}

// ---------------------------------------------------------------------
// Names
// ---------------------------------------------------------------------
/// The number that the generated name after number `names` carries.
pub open spec fn next_name(names: u16) -> u16 {
    if names == u16::MAX {
        0
    } else {
        (names + 1) as u16
    }
}

/// The first `n` of `parts`, each after an underscore.
pub open spec fn underscored(parts: Seq<Seq<char>>, n: int) -> Seq<char>
    decreases n,
{
    if n <= 0 {
        Seq::empty()
    } else {
        underscored(parts, n - 1) + seq!['_'] + parts[n - 1]
    }
}

/// The text of a derived name: each of `parts` after an underscore, then
/// an underscore and `number`.
pub open spec fn snake_case_text(parts: Seq<Seq<char>>, number: Seq<char>) -> Seq<char> {
    underscored(parts, parts.len() as int) + seq!['_'] + number
}

/// The segments of a path in lower case.
pub open spec fn lowered_segments(segments: Seq<IdentView>) -> Seq<Seq<char>> {
    Seq::new(segments.len(), |i: int| lowercase(segments[i].name))
}

/// The name derived from a constructor: the segments of its path in lower
/// case, each after an underscore, then an underscore and the number.
/// `gtk::Box` with number 3 gives `_gtk_box_3`.
pub open spec fn snake_case_name(func: WidgetFuncView, names: u16) -> IdentView {
    IdentView {
        name: snake_case_text(
            lowered_segments(func.path.segments),
            decimal_digits(names as nat),
        ),
        span: func.path.span(),
    }
}

/// A generated name: the stem, then the number.
pub open spec fn numbered_name(stem: Seq<char>, names: u16, span: Span) -> IdentView {
    IdentView { name: stem + decimal_digits(names as nat), span }
}

/// Names that are derived with different numbers are different names,
/// whatever the constructors.
pub proof fn lemma_derived_names_distinct(
    func: WidgetFuncView,
    names: u16,
    other_func: WidgetFuncView,
    other_names: u16,
)
    requires
        names != other_names,
    ensures
        snake_case_name(func, names).name != snake_case_name(other_func, other_names).name,
{
    let parts = lowered_segments(func.path.segments);
    let other_parts = lowered_segments(other_func.path.segments);
    crate::text::lemma_numbered_texts_distinct(
        underscored(parts, parts.len() as int),
        names as nat,
        underscored(other_parts, other_parts.len() as int),
        other_names as nat,
    );
}

/// The name of a widget marked `local` or `local_ref`: its constructor,
/// which must be a single identifier.
pub open spec fn local_attr_name(func: WidgetFuncView) -> Result<IdentView, Error> {
    match func.path.get_ident() {
        Some(name) => Ok(name),
        None => error(ErrorKind::ExpectedLocalIdent, func.path.span()),
    }
}

/// The name of a widget: the one given with `=`, else the one given by
/// attribute, else the local variable the widget stands for, else the name
/// derived from the constructor, which uses up a number.
#[verifier::opaque]
pub open spec fn widget_name(
    assigned: Option<IdentView>,
    attr_name: Option<IdentView>,
    attr: WidgetAttr,
    func: WidgetFuncView,
    names: u16,
) -> Result<(IdentView, u16), Error> {
    match assigned {
        Some(name) => Ok((name, names)),
        None => match attr_name {
            Some(name) => Ok((name, names)),
            None => if attr.is_local_attr() {
                match local_attr_name(func) {
                    Ok(name) => Ok((name, names)),
                    Err(e) => Err(e),
                }
            } else {
                Ok((snake_case_name(func, names), next_name(names)))
            },
        },
    }
}

// ---------------------------------------------------------------------
// Widgets and properties
// ---------------------------------------------------------------------
/// The property that stands for what could not be parsed.
pub open spec fn error_property(e: Error) -> PropertyView {
    PropertyView {
        name: PropertyNameView::Ident(IdentView { name: "invalid"@, span: e.span }),
        ty: PropertyTypeView::ParseError(e),
    }
}

/// The name of a property from what was read as a constructor: it cannot
/// have arguments, and a single identifier names a method.
#[verifier::opaque]
pub open spec fn property_name(func: WidgetFuncView) -> Result<PropertyNameView, Error> {
    if func.args is Some {
        error(ErrorKind::UnexpectedArguments, func.path.span())
    } else {
        match func.path.get_ident() {
            Some(id) => Ok(PropertyNameView::Ident(id)),
            None => Ok(PropertyNameView::Path(func.path)),
        }
    }
}

/// The properties from the cursor to the end of the block, after those in
/// `acc`. Each runs up to the next comma or to the end of the block.
#[verifier::opaque]
pub open spec fn parse_properties_from(c: CursorView, names: u16, acc: Seq<PropertyView>) -> (
    Seq<PropertyView>,
    u16,
)
    decreases c.tokens, 19int, c.tokens.len() - c.pos,
{
    if !c.has(c.pos) {
        (acc, names)
    } else {
        let end = c.next_comma(c.pos);
        let (property, names1) = match parse_property(c, names) {
            Ok(p) => if p.pos == end {
                (p.value, p.names)
            } else {
                (
                    error_property(
                        Error { kind: ErrorKind::UnexpectedToken, span: c.span_at(p.pos) },
                    ),
                    names,
                )
            },
            Err(e) => (error_property(e), names),
        };
        if end < c.tokens.len() {
            proof {
                crate::cursor::lemma_first_comma(c.tokens, c.pos);
            }
            parse_properties_from(c.at(end + 1), names1, acc.push(property))
        } else {
            (acc.push(property), names1)
        }
    }
}

/// The properties from the cursor to the end of the block.
#[verifier::opaque]
pub open spec fn parse_properties(c: CursorView, names: u16) -> (Seq<PropertyView>, u16)
    decreases c.tokens, 20int, 0int,
{
    parse_properties_from(c, names, Seq::empty())
}

/// The property at the cursor.
#[verifier::opaque]
pub open spec fn parse_property(c: CursorView, names: u16) -> Result<Parsed<PropertyView>, Error>
    decreases c.tokens, 18int, 0int,
{
    match parse_opt_attrs(c) {
        Err(e) => Err(e),
        Ok((attrs, start)) => if c.is_word_at(start, "if"@) || c.is_word_at(start, "match"@) {
            match parse_conditional_widget(c.at(start), attrs, names) {
                Err(e) => Err(e),
                Ok(cw) => Ok(
                    Parsed {
                        value: PropertyView {
                            name: PropertyNameView::RelmContainerExtAssign,
                            ty: PropertyTypeView::ConditionalWidget(cw.value),
                        },
                        pos: cw.pos,
                        names: cw.names,
                    },
                ),
            }
        } else {
            match parse_func(c.at(start)) {
                Err(e) => Err(e),
                Ok((func, after_name)) => if c.is_group_at(after_name, Delimiter::Brace) || c.is_operator_at(
                    after_name,
                    '-',
                    '>',
                ) || c.is_punct_at(after_name, ',') {
                    match parse_for_container_ext(c.at(after_name), func, attrs, names) {
                        Err(e) => Err(e),
                        Ok(w) => Ok(
                            Parsed {
                                value: PropertyView {
                                    name: PropertyNameView::RelmContainerExtAssign,
                                    ty: PropertyTypeView::Widget(w.value),
                                },
                                pos: w.pos,
                                names: w.names,
                            },
                        ),
                    }
                } else {
                    match property_name(func) {
                        Err(e) => Err(e),
                        Ok(name) => parse_property_value(c.at(after_name), name, attrs, names),
                    }
                },
            }
        },
    }
}

/// What follows the name of a property: `=>` and a handler, `:` and an
/// expression or a named widget, or `=` and a widget.
#[verifier::opaque]
pub open spec fn parse_property_value(
    c: CursorView,
    name: PropertyNameView,
    attrs: Option<Seq<AttrView>>,
    names: u16,
) -> Result<Parsed<PropertyView>, Error>
    decreases c.tokens, 17int, 0int,
{
    if c.is_operator_at(c.pos, '=', '>') {
        let end = c.next_comma(c.pos + 2);
        if end == c.pos + 2 {
            error(ErrorKind::UnexpectedToken, c.span_at(end))
        } else {
            Ok(
                Parsed {
                    value: PropertyView {
                        name,
                        ty: PropertyTypeView::SignalHandler(
                            SignalHandlerView { handler: c.range(c.pos + 2, end) },
                        ),
                    },
                    pos: end,
                    names,
                },
            )
        }
    } else if c.is_punct_at(c.pos, ':') && !c.is_assignment_at(c.pos + 2) {
        let end = c.next_comma(c.pos + 1);
        match process_assign_attributes(attrs) {
            Err(e) => Err(e),
            Ok(attr) => if end == c.pos + 1 {
                error(ErrorKind::UnexpectedToken, c.span_at(end))
            } else {
                Ok(
                    Parsed {
                        value: PropertyView {
                            name,
                            ty: PropertyTypeView::Assign(
                                AssignPropertyView { attr, expr: c.range(c.pos + 1, end) },
                            ),
                        },
                        pos: end,
                        names,
                    },
                )
            },
        }
    } else if c.is_punct_at(c.pos, ':') || c.is_punct_at(c.pos, '=') {
        if c.is_word_at(c.pos + 1, "if"@) || c.is_word_at(c.pos + 1, "match"@) {
            match parse_conditional_widget(c.at(c.pos + 1), attrs, names) {
                Err(e) => Err(e),
                Ok(cw) => Ok(
                    Parsed {
                        value: PropertyView {
                            name,
                            ty: PropertyTypeView::ConditionalWidget(cw.value),
                        },
                        pos: cw.pos,
                        names: cw.names,
                    },
                ),
            }
        } else {
            match parse_widget(c.at(c.pos + 1), attrs, None, names) {
                Err(e) => Err(e),
                Ok(w) => Ok(
                    Parsed {
                        value: PropertyView { name, ty: PropertyTypeView::Widget(w.value) },
                        pos: w.pos,
                        names: w.names,
                    },
                ),
            }
        }
    } else {
        error(ErrorKind::UnexpectedToken, c.span_at(c.pos))
    }
}

/// The widget at the cursor, with the attributes and the arguments that
/// were read before it.
#[verifier::opaque]
pub open spec fn parse_widget(
    c: CursorView,
    attributes: Option<Seq<AttrView>>,
    args: Option<Seq<TokenView>>,
    names: u16,
) -> Result<Parsed<WidgetView>, Error>
    decreases c.tokens, 13int, 0int,
{
    match process_attributes(attributes) {
        Err(e) => Err(e),
        Ok(attrs) => {
            let mutable = c.is_word_at(c.pos, "mut"@);
            let head = if mutable {
                c.pos + 1
            } else {
                c.pos
            };
            let renamed = c.is_punct_at(head + 1, '=');
            if renamed && attrs.attr.is_local_attr() {
                error(ErrorKind::RenamedLocal, c.span_at(head))
            } else if renamed && !c.is_ident_at(head) {
                error(ErrorKind::ExpectedIdent, c.span_at(head))
            } else {
                let assigned = if renamed {
                    Some(c.ident_at(head))
                } else {
                    None
                };
                let func_at = if renamed {
                    head + 2
                } else {
                    head
                };
                match parse_func_layout(c.at(func_at)) {
                    Err(e) => Err(e),
                    Ok(layout) => {
                        proof {
                            lemma_layout_brace(c.at(func_at));
                        }
                        let (properties, names1) = parse_properties(
                            c.enter(layout.brace),
                            names,
                        );
                        let after_block = layout.brace + 1;
                        if attrs.name is Some && assigned is Some {
                            error(ErrorKind::NameSpecifiedTwice, assigned.unwrap().span)
                        } else if attrs.attr.is_local_attr() && (attrs.name is Some
                            || assigned is Some) {
                            error(ErrorKind::NameSpecifiedTwice, c.span_at(after_block))
                        } else {
                            match widget_name(
                                assigned,
                                attrs.name,
                                attrs.attr,
                                layout.func,
                                names1,
                            ) {
                                Err(e) => Err(e),
                                Ok((name, names2)) => {
                                    let widget = WidgetView {
                                        doc_attr: attrs.doc_attr,
                                        attr: attrs.attr,
                                        mutable,
                                        name,
                                        func: layout.func,
                                        args,
                                        properties,
                                        wrapper: layout.wrapper,
                                        ref_token: layout.ref_token,
                                        deref_token: layout.deref_token,
                                        returned_widget: None,
                                    };
                                    if c.is_operator_at(after_block, '-', '>') {
                                        match parse_returned_widget(c.at(after_block + 2), names2) {
                                            Err(e) => Err(e),
                                            Ok(rw) => Ok(
                                                Parsed {
                                                    value: WidgetView {
                                                        returned_widget: Some(rw.value),
                                                        ..widget
                                                    },
                                                    pos: rw.pos,
                                                    names: rw.names,
                                                },
                                            ),
                                        }
                                    } else {
                                        Ok(Parsed { value: widget, pos: after_block, names: names2 })
                                    }
                                },
                            }
                        }
                    },
                }
            }
        },
    }
}

/// The widget that is added to its container, after its constructor
/// `func` has been read: the property block at the cursor, or no
/// properties where a comma stands there.
#[verifier::opaque]
pub open spec fn parse_for_container_ext(
    c: CursorView,
    func: WidgetFuncView,
    attributes: Option<Seq<AttrView>>,
    names: u16,
) -> Result<Parsed<WidgetView>, Error>
    decreases c.tokens, 13int, 0int,
{
    match process_attributes(attributes) {
        Err(e) => Err(e),
        Ok(attrs) => {
            let bare = c.is_punct_at(c.pos, ',');
            if !bare && !c.is_group_at(c.pos, Delimiter::Brace) {
                error(ErrorKind::ExpectedBraces, c.span_at(c.pos))
            } else {
                let (properties, names1) = if bare {
                    (Seq::empty(), names)
                } else {
                    parse_properties(c.enter(c.pos), names)
                };
                let end = if bare {
                    c.pos
                } else {
                    c.pos + 1
                };
                if attrs.attr.is_local_attr() && attrs.name is Some {
                    error(ErrorKind::NameSpecifiedTwice, attrs.name.unwrap().span)
                } else {
                    match widget_name(None, attrs.name, attrs.attr, func, names1) {
                        Err(e) => Err(e),
                        Ok((name, names2)) => Ok(
                            Parsed {
                                value: WidgetView {
                                    doc_attr: attrs.doc_attr,
                                    attr: attrs.attr,
                                    mutable: false,
                                    name,
                                    func,
                                    args: None,
                                    properties,
                                    wrapper: None,
                                    ref_token: true,
                                    deref_token: false,
                                    returned_widget: None,
                                },
                                pos: end,
                                names: names2,
                            },
                        ),
                    }
                }
            }
        },
    }
}

/// What the part of a widget from its constructor to the end of its
/// property block holds.
pub struct WidgetFuncInfoView {
    pub wrapper: Option<IdentView>,
    pub ref_token: bool,
    pub deref_token: bool,
    pub func: WidgetFuncView,
    pub properties: Seq<PropertyView>,
}

/// The constructor of the widget at the cursor and its property block.
#[verifier::opaque]
pub open spec fn parse_widget_func(c: CursorView, names: u16) -> Result<
    Parsed<WidgetFuncInfoView>,
    Error,
> {
    match parse_func_layout(c) {
        Err(e) => Err(e),
        Ok(layout) => {
            let (properties, names1) = parse_properties(c.enter(layout.brace), names);
            Ok(
                Parsed {
                    value: WidgetFuncInfoView {
                        wrapper: layout.wrapper,
                        ref_token: layout.ref_token,
                        deref_token: layout.deref_token,
                        func: layout.func,
                        properties,
                    },
                    pos: layout.brace + 1,
                    names: names1,
                },
            )
        },
    }
}

/// The returned widget at the cursor, which stands after `->`: a name, if
/// one is given, and a property block. Without a name it gets a generated
/// one.
#[verifier::opaque]
pub open spec fn parse_returned_widget(c: CursorView, names: u16) -> Result<
    Parsed<ReturnedWidgetView>,
    Error,
>
    decreases c.tokens, 12int, 0int,
{
    let named = c.is_ident_at(c.pos);
    let block = if named {
        c.pos + 1
    } else {
        c.pos
    };
    if !c.is_group_at(block, Delimiter::Brace) {
        error(ErrorKind::ExpectedBraces, c.span_at(block))
    } else {
        let name = if named {
            c.ident_at(c.pos)
        } else {
            numbered_name("_returned_widget_"@, names, c.span_at(block))
        };
        let names1 = if named {
            names
        } else {
            next_name(names)
        };
        let (properties, names2) = parse_properties(c.enter(block), names1);
        Ok(Parsed { value: ReturnedWidgetView { name, properties }, pos: block + 1, names: names2 })
    }
}

// ---------------------------------------------------------------------
// Conditional widgets
// ---------------------------------------------------------------------
/// Takes one more attribute of a conditional widget into account: a name
/// may be given once, doc comments are passed over, and a conditional
/// widget can have no other attribute.
pub open spec fn conditional_attr_step(state: Option<IdentView>, attr: AttrView) -> Result<
    Option<IdentView>,
    Error,
> {
    match attr {
        AttrView::Doc(_) => Ok(state),
        AttrView::Name(_, name) => if state is Some {
            error(ErrorKind::AttributeTwice, attr.span())
        } else {
            Ok(Some(name))
        },
        _ => error(ErrorKind::InvalidWidgetAttribute, attr.span()),
    }
}

/// What the first `n` attributes of a conditional widget say, or the first
/// diagnostic among them.
#[verifier::opaque]
pub open spec fn conditional_attrs_prefix(attrs: Seq<AttrView>, n: int) -> Result<
    Option<IdentView>,
    Error,
>
    decreases n,
{
    if n <= 0 {
        Ok(None)
    } else {
        match conditional_attrs_prefix(attrs, n - 1) {
            Err(e) => Err(e),
            Ok(state) => conditional_attr_step(state, attrs[n - 1]),
        }
    }
}

/// A diagnostic among the first `k` attributes is the diagnostic of every
/// longer prefix.
pub proof fn lemma_conditional_attrs_error(attrs: Seq<AttrView>, k: int, n: int)
    requires
        k <= n,
    ensures
        conditional_attrs_prefix(attrs, k) is Err ==> conditional_attrs_prefix(attrs, n)
            == conditional_attrs_prefix(attrs, k),
    decreases n - k,
{
    reveal(conditional_attrs_prefix);
    if k < n && conditional_attrs_prefix(attrs, k) is Err {
        lemma_conditional_attrs_error(attrs, k, n - 1);
    }
}

/// The name that the attributes of a conditional widget give it, if any.
#[verifier::opaque]
pub open spec fn process_conditional_attributes(attrs: Option<Seq<AttrView>>) -> Result<
    Option<IdentView>,
    Error,
> {
    match attrs {
        Some(attrs) => conditional_attrs_prefix(attrs, attrs.len() as int),
        None => Ok(None),
    }
}

/// The conditional widget at the cursor, which stands at `if` or `match`.
#[verifier::opaque]
pub open spec fn parse_conditional_widget(
    c: CursorView,
    attributes: Option<Seq<AttrView>>,
    names: u16,
) -> Result<Parsed<ConditionalWidgetView>, Error>
    decreases c.tokens, 16int, 0int,
{
    match process_conditional_attributes(attributes) {
        Err(e) => Err(e),
        Ok(attr_name) => {
            let name = match attr_name {
                Some(name) => name,
                None => numbered_name("_conditional_widget_"@, names, c.span_at(c.pos)),
            };
            let names1 = if attr_name is Some {
                names
            } else {
                next_name(names)
            };
            if c.is_word_at(c.pos, "if"@) {
                match parse_if_branches(c, true, names1, Seq::empty()) {
                    Err(e) => Err(e),
                    Ok(branches) => Ok(
                        Parsed {
                            value: ConditionalWidgetView {
                                name,
                                branches: ConditionalBranchesView::If(branches.value),
                            },
                            pos: branches.pos,
                            names: branches.names,
                        },
                    ),
                }
            } else if c.is_word_at(c.pos, "match"@) {
                let brace = c.next_brace(c.pos + 1);
                if !c.has(brace) {
                    error(ErrorKind::ExpectedBraces, c.span_at(brace))
                } else if brace == c.pos + 1 {
                    error(ErrorKind::UnexpectedToken, c.span_at(brace))
                } else {
                    proof {
                        crate::cursor::lemma_first_brace(c.tokens, c.pos + 1);
                    }
                    match parse_match_arms(c.enter(brace), names1, Seq::empty()) {
                        Err(e) => Err(e),
                        Ok(arms) => Ok(
                            Parsed {
                                value: ConditionalWidgetView {
                                    name,
                                    branches: ConditionalBranchesView::Match(
                                        c.range(c.pos + 1, brace),
                                        arms.value,
                                    ),
                                },
                                pos: brace + 1,
                                names: arms.names,
                            },
                        ),
                    }
                }
            } else {
                error(ErrorKind::ExpectedBranch, c.span_at(c.pos))
            }
        },
    }
}

/// The widget of a branch: the only thing within the braces of the branch.
#[verifier::opaque]
pub open spec fn parse_branch_widget(c: CursorView, names: u16) -> Result<
    Parsed<WidgetView>,
    Error,
>
    decreases c.tokens, 14int, 0int,
{
    match parse_opt_attrs(c) {
        Err(e) => Err(e),
        Ok((attrs, start)) => match parse_widget(c.at(start), attrs, None, names) {
            Err(e) => Err(e),
            Ok(w) => if c.has(w.pos) {
                error(ErrorKind::UnexpectedToken, c.span_at(w.pos))
            } else {
                Ok(w)
            },
        },
    }
}

/// The branches of an `if` chain from the cursor on, after those in `acc`. The
/// first branch starts with `if`, the others with `else if` or with `else`,
/// and `else` ends the chain. The condition is what stands before the
/// first group in braces.
#[verifier::opaque]
pub open spec fn parse_if_branches(
    c: CursorView,
    first: bool,
    names: u16,
    acc: Seq<IfBranchView>,
) -> Result<Parsed<Seq<IfBranchView>>, Error>
    decreases c.tokens, 15int, c.tokens.len() - c.pos,
{
    let pos = c.pos;
    if first && !c.is_word_at(pos, "if"@) {
        error(ErrorKind::ExpectedBranch, c.span_at(pos))
    } else if !first && !c.is_word_at(pos, "else"@) {
        Ok(Parsed { value: acc, pos, names })
    } else {
        let is_else = !first && !c.is_word_at(pos + 1, "if"@);
        let start = if first || is_else {
            pos + 1
        } else {
            pos + 2
        };
        let brace = c.next_brace(start);
        if !c.has(brace) {
            error(ErrorKind::ExpectedBraces, c.span_at(brace))
        } else if is_else && brace != start {
            error(ErrorKind::ExpectedBraces, c.span_at(start))
        } else if !is_else && brace == start {
            error(ErrorKind::UnexpectedToken, c.span_at(brace))
        } else {
            proof {
                crate::cursor::lemma_first_brace(c.tokens, start);
            }
            match parse_branch_widget(c.enter(brace), names) {
                Err(e) => Err(e),
                Ok(w) => {
                    let cond = if first {
                        IfConditionView::If(c.range(start, brace))
                    } else if is_else {
                        IfConditionView::Else
                    } else {
                        IfConditionView::ElseIf(c.range(start, brace))
                    };
                    let branches = acc.push(IfBranchView { cond, widget: w.value });
                    if is_else {
                        Ok(Parsed { value: branches, pos: brace + 1, names: w.names })
                    } else {
                        parse_if_branches(c.at(brace + 1), false, w.names, branches)
                    }
                },
            }
        }
    }
}

/// The arms of a `match` from the cursor on, after those in `acc`. An arm is a
/// pattern, a guard after `if` where there is one, `=>` and a widget; the
/// arms are separated by commas.
#[verifier::opaque]
pub open spec fn parse_match_arms(c: CursorView, names: u16, acc: Seq<MatchArmView>) -> Result<
    Parsed<Seq<MatchArmView>>,
    Error,
>
    decreases c.tokens, 15int, c.tokens.len() - c.pos,
{
    let pos = c.pos;
    if !c.has(pos) {
        Ok(Parsed { value: acc, pos, names })
    } else {
        let arrow = c.next_fat_arrow(pos);
        let guard_at = c.next_if(pos, arrow);
        if !c.has(arrow) {
            error(ErrorKind::ExpectedFatArrow, c.span_at(arrow))
        } else if guard_at == pos {
            error(ErrorKind::UnexpectedToken, c.span_at(pos))
        } else {
            let end = c.next_comma(arrow + 2);
            match parse_opt_attrs(c.at(arrow + 2)) {
                Err(e) => Err(e),
                Ok((attrs, start)) => match parse_widget(c.at(start), attrs, None, names) {
                    Err(e) => Err(e),
                    Ok(w) => if w.pos != end {
                        error(ErrorKind::UnexpectedToken, c.span_at(w.pos))
                    } else {
                        let arm = MatchArmView {
                            pattern: c.range(pos, guard_at),
                            guard: if guard_at < arrow {
                                Some(c.range(guard_at + 1, arrow))
                            } else {
                                None
                            },
                            widget: w.value,
                        };
                        if end < c.tokens.len() {
                            proof {
                                crate::cursor::lemma_first_fat_arrow(c.tokens, pos);
                                crate::cursor::lemma_first_comma(c.tokens, arrow + 2);
                            }
                            parse_match_arms(c.at(end + 1), w.names, acc.push(arm))
                        } else {
                            Ok(Parsed { value: acc.push(arm), pos: end, names: w.names })
                        }
                    },
                },
            }
        }
    }
}

// ---------------------------------------------------------------------
// Parsers and the grammar
// ---------------------------------------------------------------------
/// Whether a parser that started at `before` and has come to `after` has
/// kept to its tokens: only the position has changed.
pub open spec fn same_tokens(before: CursorView, after: CursorView) -> bool {
    after.tokens == before.tokens && after.scope == before.scope
}

/// Whether a parser that started at `before` and ended at `after`, with
/// `names` as the number of the next generated name, has returned in `r`
/// what the grammar expects: the value whose view the grammar gives, with
/// the cursor after it and the number that the grammar gives, or the
/// grammar's diagnostic. After a diagnostic the cursor stands somewhere in
/// the same tokens, and nothing is said of the number.
pub open spec fn parses_as<T: View>(
    r: Result<T, Error>,
    before: CursorView,
    after: CursorView,
    names: u16,
    expected: Result<Parsed<T::V>, Error>,
) -> bool {
    &&& same_tokens(before, after)
    &&& match expected {
        Ok(p) => r is Ok && r->Ok_0@ == p.value && after.pos == p.pos && names == p.names,
        Err(e) => r is Err && r->Err_0 == e,
    }
}

} // verus!

