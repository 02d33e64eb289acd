//! What the grammar guarantees about the attributes and the names of
//! widgets and about the branches of conditional widgets.

use crate::cursor::CursorView;
use crate::error::{Error, ErrorKind};
use crate::parse::grammar::{
    local_attr_name, next_name, parse_branch_widget, parse_conditional_widget,
    parse_func_layout, parse_if_branches, parse_properties, parse_widget, process_attributes,
    parse_returned_widget, process_conditional_attributes, snake_case_name,
    widget_attrs_prefix, widget_name, Parsed, WidgetAttrsView,
};
use crate::token::{Delimiter, TokenView};
use crate::widgets::{
    is_if_chain, is_open_if_chain, AttrView, ConditionalBranchesView, IfBranchView,
    IfConditionView, WidgetAttr, WidgetView,
};
use vstd::prelude::*;

verus! {

/// Whether an attribute marks a widget as a local variable.
pub open spec fn is_local_marker(attr: AttrView) -> bool {
    attr is Local || attr is LocalRef
}

/// Whether an attribute is one that a widget can have.
pub open spec fn is_widget_attr(attr: AttrView) -> bool {
    attr is Local || attr is LocalRef || attr is Doc || attr is Name
}

/// How many of the first `n` attributes mark a widget as a local variable.
pub open spec fn count_local_markers(attrs: Seq<AttrView>, n: int) -> nat
    decreases n,
{
    if n <= 0 {
        0
    } else if is_local_marker(attrs[n - 1]) {
        count_local_markers(attrs, n - 1) + 1
    } else {
        count_local_markers(attrs, n - 1)
    }
}

/// How many of the first `n` attributes give a name.
pub open spec fn count_names(attrs: Seq<AttrView>, n: int) -> nat
    decreases n,
{
    if n <= 0 {
        0
    } else if attrs[n - 1] is Name {
        count_names(attrs, n - 1) + 1
    } else {
        count_names(attrs, n - 1)
    }
}

proof fn lemma_no_local_markers(attrs: Seq<AttrView>, n: int)
    requires
        0 <= n <= attrs.len(),
        count_local_markers(attrs, n) == 0,
    ensures
        forall|i: int| 0 <= i < n ==> !is_local_marker(#[trigger] attrs[i]),
    decreases n,
{
    if n > 0 {
        lemma_no_local_markers(attrs, n - 1);
    }
}

/// What the first `n` attributes say, as long as each is one that a widget
/// can have: a diagnostic is that of a repeated attribute, and otherwise
/// at most one marker and at most one name were met, and the marker that
/// was met is the one that is reported.
proof fn lemma_widget_attrs_counted(attrs: Seq<AttrView>, n: int)
    requires
        0 <= n <= attrs.len(),
        forall|i: int| 0 <= i < attrs.len() ==> is_widget_attr(#[trigger] attrs[i]),
    ensures
        match widget_attrs_prefix(attrs, n) {
            Ok(state) => {
                &&& count_local_markers(attrs, n) <= 1
                &&& count_names(attrs, n) <= 1
                &&& state.attr.is_local_attr() <==> count_local_markers(attrs, n) == 1
                &&& state.name is Some <==> count_names(attrs, n) == 1
                &&& forall|i: int|
                    0 <= i < n && is_local_marker(#[trigger] attrs[i]) ==> (attrs[i] is Local
                        <==> state.attr == WidgetAttr::Local)
            },
            Err(e) => {
                &&& e.kind == ErrorKind::AttributeTwice
                &&& count_local_markers(attrs, n) >= 2 || count_names(attrs, n) >= 2
            },
        },
    decreases n,
{
    reveal(widget_attrs_prefix);
    if n > 0 {
        lemma_widget_attrs_counted(attrs, n - 1);
        assert(is_widget_attr(attrs[n - 1]));
        if count_local_markers(attrs, n - 1) == 0 {
            lemma_no_local_markers(attrs, n - 1);
        }
    }
}

/// A widget cannot be marked as a local variable twice: where two or more
/// of the attributes of a widget are `local` or `local_ref`, and every
/// attribute is one that a widget can have, reading the attributes fails
/// with the diagnostic of a repeated attribute.
pub proof fn lemma_two_local_markers_refused(attrs: Seq<AttrView>)
    requires
        forall|i: int| 0 <= i < attrs.len() ==> is_widget_attr(#[trigger] attrs[i]),
        count_local_markers(attrs, attrs.len() as int) >= 2,
    ensures
        process_attributes(Some(attrs)) is Err,
        process_attributes(Some(attrs))->Err_0.kind == ErrorKind::AttributeTwice,
{
    reveal(process_attributes);
    lemma_widget_attrs_counted(attrs, attrs.len() as int);
}

/// One marker is accepted: where exactly one of the attributes of a widget
/// is `local` or `local_ref`, no name is given twice, and every attribute
/// is one that a widget can have, reading the attributes succeeds and
/// reports that marker.
pub proof fn lemma_one_local_marker_accepted(attrs: Seq<AttrView>, i: int)
    requires
        forall|i: int| 0 <= i < attrs.len() ==> is_widget_attr(#[trigger] attrs[i]),
        count_local_markers(attrs, attrs.len() as int) == 1,
        count_names(attrs, attrs.len() as int) <= 1,
        0 <= i < attrs.len(),
        is_local_marker(attrs[i]),
    ensures
        process_attributes(Some(attrs)) is Ok,
        process_attributes(Some(attrs))->Ok_0.attr == (if attrs[i] is Local {
            WidgetAttr::Local
        } else {
            WidgetAttr::LocalRef
        }),
{
    reveal(process_attributes);
    lemma_widget_attrs_counted(attrs, attrs.len() as int);
}

proof fn lemma_if_branches_chain(
    c: CursorView,
    first: bool,
    names: u16,
    acc: Seq<IfBranchView>,
)
    requires
        first ==> acc.len() == 0,
        !first ==> is_open_if_chain(acc),
    ensures
        parse_if_branches(c, first, names, acc) matches Ok(p) ==> is_if_chain(p.value),
    decreases c.tokens.len() - c.pos,
{
    reveal(parse_if_branches);
    if (first && c.is_word_at(c.pos, "if"@)) || (!first && c.is_word_at(c.pos, "else"@)) {
        let is_else = !first && !c.is_word_at(c.pos + 1, "if"@);
        let start = if first || is_else {
            c.pos + 1
        } else {
            c.pos + 2
        };
        let brace = c.next_brace(start);
        crate::cursor::lemma_first_brace(c.tokens, start);
        if c.has(brace) && !(is_else && brace != start) && !(!is_else && brace == start) {
            match parse_branch_widget(c.enter(brace), names) {
                Err(_) => {},
                Ok(w) => {
                    let cond = if first {
                        IfConditionView::If(c.range(start, brace))
                    } else if is_else {
                        IfConditionView::Else
                    } else {
                        IfConditionView::ElseIf(c.range(start, brace))
                    };
                    let branches = acc.push(IfBranchView { cond, widget: w.value });
                    if !is_else {
                        lemma_if_branches_chain(c.at(brace + 1), false, w.names, branches);
                    }
                },
            }
        }
    }
}

/// The branches that the parser finds are an `if` chain: an `if` first,
/// then `else if`s, then at most one `else`.
pub proof fn lemma_parsed_branches_are_chain(
    c: CursorView,
    attributes: Option<Seq<AttrView>>,
    names: u16,
)
    ensures
        parse_conditional_widget(c, attributes, names) matches Ok(p) ==> (p.value.branches
            matches ConditionalBranchesView::If(branches) ==> is_if_chain(branches)),
{
    reveal(parse_conditional_widget);
    reveal(parse_if_branches);
    match process_conditional_attributes(attributes) {
        Err(_) => {},
        Ok(attr_name) => {
            let names1 = if attr_name is Some {
                names
            } else {
                next_name(names)
            };
            if c.is_word_at(c.pos, "if"@) {
                lemma_if_branches_chain(c, true, names1, Seq::empty());
            }
        },
    }
}

/// A widget marked as a local variable must name the variable. Where such
/// a widget is named in no other way and its constructor and property
/// block are well formed, it is refused with the diagnostic of a missing
/// identifier, at the start of the path, if the path of its constructor
/// has a leading `::` or more than one segment.
pub proof fn lemma_local_with_compound_path_refused(
    c: CursorView,
    attributes: Option<Seq<AttrView>>,
    args: Option<Seq<TokenView>>,
    names: u16,
)
    requires
        process_attributes(attributes) is Ok,
        process_attributes(attributes)->Ok_0.attr.is_local_attr(),
        process_attributes(attributes)->Ok_0.name is None,
        !is_renamed(c),
        parse_func_layout(c.at(func_start(c))) is Ok,
        parse_func_layout(c.at(func_start(c)))->Ok_0.func.path.get_ident() is None,
    ensures
        parse_widget(c, attributes, args, names) == Err::<Parsed<WidgetView>, Error>(
            Error {
                kind: ErrorKind::ExpectedLocalIdent,
                span: parse_func_layout(c.at(func_start(c)))->Ok_0.func.path.span(),
            },
        ),
{
    reveal(parse_widget);
    reveal(widget_name);
    reveal(local_attr_name);
}

/// A constructor counts as wrapped in `Some(...)` only with its
/// parentheses: where the constructor and the property block at the cursor
/// are well formed, the wrapper is reported if and only if the word `Some`
/// stands at the cursor with a group in parentheses directly after it, and
/// it is then that word. Without the parentheses, `Some` is the first
/// segment of the constructor's path.
pub proof fn lemma_wrapper_needs_parentheses(c: CursorView)
    requires
        parse_func_layout(c) is Ok,
    ensures
        ({
            let layout = parse_func_layout(c)->Ok_0;
            &&& layout.wrapper is Some <==> c.is_word_at(c.pos, "Some"@) && c.is_group_at(
                c.pos + 1,
                Delimiter::Parenthesis,
            )
            &&& layout.wrapper is Some ==> layout.wrapper->0 == c.ident_at(c.pos)
            &&& c.is_word_at(c.pos, "Some"@) && !c.is_group_at(c.pos + 1, Delimiter::Parenthesis)
                ==> layout.func.path.segments.len() > 0 && layout.func.path.segments[0]
                == c.ident_at(c.pos)
        }),
{
    reveal(parse_func_layout);
    reveal(crate::parse::grammar::parse_marked_func);
    reveal(crate::parse::grammar::parse_func);
    reveal(crate::parse::grammar::parse_path);
    if c.is_word_at(c.pos, "Some"@) && !c.is_group_at(c.pos + 1, Delimiter::Parenthesis) {
        reveal_strlit("Some");
        assert(!c.is_punct_at(c.pos, '&'));
        assert(!c.is_punct_at(c.pos, '*'));
        assert(!c.is_operator_at(c.pos, ':', ':'));
        assert(c.at(c.pos) == c);
        let first = seq![c.ident_at(c.pos)];
        crate::parse::grammar::lemma_path_tail_keeps(c.at(c.pos + 1), first);
        let segments = parse_func_layout(c)->Ok_0.func.path.segments;
        assert(segments.subrange(0, 1)[0] == segments[0]);
        assert(first[0] == c.ident_at(c.pos));
    }
}

/// Where the name or the constructor of the widget at the cursor starts:
/// after `mut`, if that stands at the cursor.
pub open spec fn after_mut(c: CursorView) -> int {
    if c.is_word_at(c.pos, "mut"@) {
        c.pos + 1
    } else {
        c.pos
    }
}

/// Whether the widget at the cursor is written as `name = ...`.
pub open spec fn is_renamed(c: CursorView) -> bool {
    c.is_punct_at(after_mut(c) + 1, '=')
}

/// Where the constructor of the widget at the cursor starts.
pub open spec fn func_start(c: CursorView) -> int {
    if is_renamed(c) {
        after_mut(c) + 2
    } else {
        after_mut(c)
    }
}

/// In how many ways the widget at the cursor is given a name: with `=`, by
/// a `name` attribute, and by being marked as a local variable.
pub open spec fn name_sources(c: CursorView, attrs: WidgetAttrsView) -> nat {
    let renamed: nat = if is_renamed(c) {
        1
    } else {
        0
    };
    let named: nat = if attrs.name is Some {
        1
    } else {
        0
    };
    let local: nat = if attrs.attr.is_local_attr() {
        1
    } else {
        0
    };
    renamed + named + local
}

/// A name given in two ways is refused. Where the attributes of a widget
/// can be read and its constructor and property block are well formed, a
/// widget that is named in two or three of the ways `name = ...`, `name`
/// attribute and local variable is not accepted: a local variable that is
/// renamed fails as such, at the new name; any other pair fails with the
/// diagnostic of a name that is specified more than once.
pub proof fn lemma_name_given_twice_refused(
    c: CursorView,
    attributes: Option<Seq<AttrView>>,
    args: Option<Seq<TokenView>>,
    names: u16,
)
    requires
        process_attributes(attributes) is Ok,
        name_sources(c, process_attributes(attributes)->Ok_0) >= 2,
        is_renamed(c) ==> c.is_ident_at(after_mut(c)),
        parse_func_layout(c.at(func_start(c))) is Ok,
    ensures
        ({
            let attrs = process_attributes(attributes)->Ok_0;
            let r = parse_widget(c, attributes, args, names);
            &&& r is Err
            &&& is_renamed(c) && attrs.attr.is_local_attr() ==> r->Err_0 == (Error {
                kind: ErrorKind::RenamedLocal,
                span: c.span_at(after_mut(c)),
            })
            &&& is_renamed(c) && !attrs.attr.is_local_attr() ==> r->Err_0 == (Error {
                kind: ErrorKind::NameSpecifiedTwice,
                span: c.ident_at(after_mut(c)).span,
            })
            &&& !is_renamed(c) ==> r->Err_0 == (Error {
                kind: ErrorKind::NameSpecifiedTwice,
                span: c.span_at(parse_func_layout(c.at(func_start(c)))->Ok_0.brace + 1),
            })
        }),
{
    reveal(parse_widget);
}

/// A name given in one way is taken. Where the attributes of a widget can
/// be read, its constructor and property block are well formed, a widget
/// marked as a local variable has a single identifier for its constructor,
/// and what follows `->`, if anything, is a returned widget, a widget that
/// is named in at most one way is accepted. Its name is the one given with
/// `=`, or the one given by the `name` attribute, or the identifier of the
/// local variable, or, where it is named in no way, the name derived from
/// its constructor with the number that is next after the widget's
/// properties were read.
pub proof fn lemma_name_given_once_accepted(
    c: CursorView,
    attributes: Option<Seq<AttrView>>,
    args: Option<Seq<TokenView>>,
    names: u16,
)
    requires
        process_attributes(attributes) is Ok,
        name_sources(c, process_attributes(attributes)->Ok_0) <= 1,
        is_renamed(c) ==> c.is_ident_at(after_mut(c)),
        parse_func_layout(c.at(func_start(c))) is Ok,
        process_attributes(attributes)->Ok_0.attr.is_local_attr() ==> local_attr_name(
            parse_func_layout(c.at(func_start(c)))->Ok_0.func,
        ) is Ok,
        ({
            let after = parse_func_layout(c.at(func_start(c)))->Ok_0.brace + 1;
            c.is_operator_at(after, '-', '>') ==> c.is_group_at(
                if c.is_ident_at(after + 2) {
                    after + 3
                } else {
                    after + 2
                },
                Delimiter::Brace,
            )
        }),
    ensures
        ({
            let attrs = process_attributes(attributes)->Ok_0;
            let layout = parse_func_layout(c.at(func_start(c)))->Ok_0;
            let r = parse_widget(c, attributes, args, names);
            &&& r is Ok
            &&& r->Ok_0.value.func == layout.func
            &&& is_renamed(c) ==> r->Ok_0.value.name == c.ident_at(after_mut(c))
            &&& attrs.name is Some ==> r->Ok_0.value.name == attrs.name->0
            &&& attrs.attr.is_local_attr() ==> Some(r->Ok_0.value.name)
                == layout.func.path.get_ident()
            &&& name_sources(c, attrs) == 0 ==> r->Ok_0.value.name == snake_case_name(
                layout.func,
                parse_properties(c.enter(layout.brace), names).1,
            )
        }),
{
    reveal(parse_widget);
    reveal(parse_properties);
    reveal(parse_returned_widget);
    reveal(widget_name);
    reveal(local_attr_name);
}

} // verus!
