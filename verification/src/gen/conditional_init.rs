//! The conditional-initialization pass.
//!
//! For every conditional widget in the tree the pass emits the statement
//! that selects the visible child, and inside each branch the assignments
//! of the branch's watched and tracked properties. Assignments that are not
//! inside a branch are left to the ordinary initialization.

use crate::gen::assign::{assign_args_tokens, assign_tokens};
use crate::text::{
    decimal_digits, decimal_string, lemma_decimal_digits_distinct, quote_string, quoted,
};
use crate::token::{
    fat_arrow_tokens, group_token, ident_token, literal_token, punct_token, Delimiter, Spacing,
    Span, TokenStream, TokenView,
};
use crate::widgets::{
    AssignProperty, AssignPropertyAttr, AssignPropertyAttrView, AssignPropertyView,
    ConditionalBranches, ConditionalBranchesView, ConditionalWidget, ConditionalWidgetView,
    Ident, IdentView, IfBranch, IfBranchView, IfCondition, IfConditionView, MatchArm,
    MatchArmView, Path, PathView, Properties, Property, PropertyName, PropertyNameView,
    PropertyType, PropertyTypeView, PropertyView, ReturnedWidget, ReturnedWidgetView, Widget,
    WidgetView,
};
use vstd::prelude::*;

verus! {

/// A tracked assignment: `if guard { assignment }`, with the model's name
/// in front of the guard where `paste_model` is set.
pub open spec fn track_tokens(
    guard: Seq<TokenView>,
    paste_model: bool,
    model_name: IdentView,
    assignment: Seq<TokenView>,
) -> Seq<TokenView> {
    let span = TokenStream::spec_span(guard);
    let model = if paste_model {
        seq![ident_token(model_name.name, model_name.span)]
    } else {
        Seq::empty()
    };
    seq![ident_token("if"@, span)] + model + guard + seq![
        group_token(Delimiter::Brace, assignment, span),
    ]
}

/// What the pass emits for one assignment.
pub open spec fn assign_init_tokens(
    assign: AssignPropertyView,
    p_name: PropertyNameView,
    w_name: IdentView,
    model_name: IdentView,
    is_conditional: bool,
    relm4_path: PathView,
) -> Seq<TokenView> {
    if !is_conditional {
        Seq::empty()
    } else {
        match assign.attr {
            AssignPropertyAttrView::Plain => Seq::empty(),
            AssignPropertyAttrView::Watch => assign_tokens(assign, p_name, w_name, relm4_path),
            AssignPropertyAttrView::Track(guard, paste_model) => track_tokens(
                guard,
                paste_model,
                model_name,
                assign_tokens(assign, p_name, w_name, relm4_path),
            ),
        }
    }
}

/// The literal that names branch `index`: its decimal numeral in quotes.
pub open spec fn branch_key(index: nat) -> TokenView {
    literal_token(quoted(decimal_digits(index)), Span::call_site())
}

/// The body of a branch: what the pass emits for the branch's widget, then
/// the branch's key.
pub open spec fn branch_body(inner: Seq<TokenView>, index: nat) -> TokenView {
    group_token(Delimiter::Brace, inner.push(branch_key(index)), Span::call_site())
}

/// One arm of an `if` chain: its keywords and condition, then its body.
pub open spec fn if_arm_tokens(cond: IfConditionView, inner: Seq<TokenView>, index: nat) -> Seq<
    TokenView,
> {
    let span = Span::call_site();
    match cond {
        IfConditionView::If(c) => seq![ident_token("if"@, span)] + c + seq![
            branch_body(inner, index),
        ],
        IfConditionView::ElseIf(c) => seq![ident_token("else"@, span), ident_token("if"@, span)]
            + c + seq![branch_body(inner, index)],
        IfConditionView::Else => seq![ident_token("else"@, span), branch_body(inner, index)],
    }
}

/// One arm of a `match`: the pattern and the guard as written, `=>`, the
/// body, and a comma.
pub open spec fn match_arm_tokens(
    pattern: Seq<TokenView>,
    guard: Option<Seq<TokenView>>,
    inner: Seq<TokenView>,
    index: nat,
) -> Seq<TokenView> {
    let span = Span::call_site();
    let guard_tokens = match guard {
        Some(g) => seq![ident_token("if"@, span)] + g,
        None => Seq::empty(),
    };
    pattern + guard_tokens + fat_arrow_tokens(span) + seq![
        branch_body(inner, index),
        punct_token(',', Spacing::Alone, span),
    ]
}

/// The statement that shows the selected child: a binding of the current
/// page, and the call that sets the visible child to the selector's value.
pub open spec fn visible_child_tokens(w_name: IdentView, selector: Seq<TokenView>) -> Seq<
    TokenView,
> {
    let span = Span::call_site();
    seq![
        ident_token("let"@, span),
        ident_token("__current_page"@, span),
        punct_token('=', Spacing::Alone, span),
        literal_token("\"\""@, span),
        punct_token(';', Spacing::Alone, span),
        ident_token(w_name.name, w_name.span),
        punct_token('.', Spacing::Alone, span),
        ident_token("set_visible_child_name"@, span),
        group_token(Delimiter::Parenthesis, selector, span),
        punct_token(';', Spacing::Alone, span),
    ]
}

/// What the pass emits for a widget: for its properties in the order
/// declared, then for its returned widget.
pub open spec fn widget_init_tokens(
    widget: WidgetView,
    model_name: IdentView,
    is_conditional: bool,
    relm4_path: PathView,
) -> Seq<TokenView>
    decreases widget, 0int,
{
    properties_init_tokens(
        widget.properties,
        widget.properties.len() as int,
        widget.name,
        model_name,
        is_conditional,
        relm4_path,
    ) + match widget.returned_widget {
        Some(returned) => returned_widget_init_tokens(
            returned,
            model_name,
            is_conditional,
            relm4_path,
        ),
        None => Seq::empty(),
    }
}

/// What the pass emits for a returned widget: for its properties in the
/// order declared.
pub open spec fn returned_widget_init_tokens(
    returned: ReturnedWidgetView,
    model_name: IdentView,
    is_conditional: bool,
    relm4_path: PathView,
) -> Seq<TokenView>
    decreases returned, 0int,
{
    properties_init_tokens(
        returned.properties,
        returned.properties.len() as int,
        returned.name,
        model_name,
        is_conditional,
        relm4_path,
    )
}

/// What the pass emits for the first `n` of the properties of widget
/// `w_name`.
pub open spec fn properties_init_tokens(
    properties: Seq<PropertyView>,
    n: int,
    w_name: IdentView,
    model_name: IdentView,
    is_conditional: bool,
    relm4_path: PathView,
) -> Seq<TokenView>
    decreases properties, n,
{
    if n <= 0 || n > properties.len() {
        Seq::empty()
    } else {
        properties_init_tokens(properties, n - 1, w_name, model_name, is_conditional, relm4_path)
            + property_init_tokens(
            properties[n - 1],
            w_name,
            model_name,
            is_conditional,
            relm4_path,
        )
    }
}

/// What the pass emits for one property of widget `w_name`.
pub open spec fn property_init_tokens(
    property: PropertyView,
    w_name: IdentView,
    model_name: IdentView,
    is_conditional: bool,
    relm4_path: PathView,
) -> Seq<TokenView>
    decreases property, 0int,
{
    match property.ty {
        PropertyTypeView::Assign(assign) => assign_init_tokens(
            assign,
            property.name,
            w_name,
            model_name,
            is_conditional,
            relm4_path,
        ),
        PropertyTypeView::Widget(widget) => widget_init_tokens(
            widget,
            model_name,
            is_conditional,
            relm4_path,
        ),
        PropertyTypeView::ConditionalWidget(cond_widget) => conditional_widget_init_tokens(
            cond_widget,
            model_name,
            relm4_path,
        ),
        PropertyTypeView::SignalHandler(_) => Seq::empty(),
        PropertyTypeView::ParseError(_) => Seq::empty(),
    }
}

/// What the pass emits for a conditional widget: the statement that shows
/// the child that its selector names.
pub open spec fn conditional_widget_init_tokens(
    cond_widget: ConditionalWidgetView,
    model_name: IdentView,
    relm4_path: PathView,
) -> Seq<TokenView>
    decreases cond_widget, 0int,
{
    visible_child_tokens(
        cond_widget.name,
        selector_tokens(cond_widget.branches, model_name, relm4_path),
    )
}

/// The expression whose value is the key of the selected branch: the `if`
/// chain arm by arm, or the `match` with its arms in braces.
pub open spec fn selector_tokens(
    branches: ConditionalBranchesView,
    model_name: IdentView,
    relm4_path: PathView,
) -> Seq<TokenView>
    decreases branches, 0int,
{
    match branches {
        ConditionalBranchesView::If(if_branches) => if_chain_tokens(
            if_branches,
            if_branches.len() as int,
            model_name,
            relm4_path,
        ),
        ConditionalBranchesView::Match(expr, arms) => seq![
            ident_token("match"@, Span::call_site()),
        ] + expr + seq![
            group_token(
                Delimiter::Brace,
                match_arms_tokens(arms, arms.len() as int, model_name, relm4_path),
                Span::call_site(),
            ),
        ],
    }
}

/// The first `n` arms of an `if` chain.
pub open spec fn if_chain_tokens(
    branches: Seq<IfBranchView>,
    n: int,
    model_name: IdentView,
    relm4_path: PathView,
) -> Seq<TokenView>
    decreases branches, n,
{
    if n <= 0 || n > branches.len() {
        Seq::empty()
    } else {
        if_chain_tokens(branches, n - 1, model_name, relm4_path) + if_arm_tokens(
            branches[n - 1].cond,
            widget_init_tokens(branches[n - 1].widget, model_name, true, relm4_path),
            (n - 1) as nat,
        )
    }
}

/// The first `n` arms of a `match`.
pub open spec fn match_arms_tokens(
    arms: Seq<MatchArmView>,
    n: int,
    model_name: IdentView,
    relm4_path: PathView,
) -> Seq<TokenView>
    decreases arms, n,
{
    if n <= 0 || n > arms.len() {
        Seq::empty()
    } else {
        match_arms_tokens(arms, n - 1, model_name, relm4_path) + match_arm_tokens(
            arms[n - 1].pattern,
            arms[n - 1].guard,
            widget_init_tokens(arms[n - 1].widget, model_name, true, relm4_path),
            (n - 1) as nat,
        )
    }
}

/// The arms of an `if` chain, one sequence of tokens for each branch, in
/// the order of the branches.
pub open spec fn if_chain_arms(
    branches: Seq<IfBranchView>,
    model_name: IdentView,
    relm4_path: PathView,
) -> Seq<Seq<TokenView>> {
    Seq::new(
        branches.len(),
        |i: int|
            if_arm_tokens(
                branches[i].cond,
                widget_init_tokens(branches[i].widget, model_name, true, relm4_path),
                i as nat,
            ),
    )
}

/// The arms of a `match`, one sequence of tokens for each arm, in the order
/// of the arms.
pub open spec fn match_arms(
    arms: Seq<MatchArmView>,
    model_name: IdentView,
    relm4_path: PathView,
) -> Seq<Seq<TokenView>> {
    Seq::new(
        arms.len(),
        |i: int|
            match_arm_tokens(
                arms[i].pattern,
                arms[i].guard,
                widget_init_tokens(arms[i].widget, model_name, true, relm4_path),
                i as nat,
            ),
    )
}

proof fn lemma_if_chain_prefix(
    branches: Seq<IfBranchView>,
    n: int,
    model_name: IdentView,
    relm4_path: PathView,
)
    requires
        0 <= n <= branches.len(),
    ensures
        if_chain_tokens(branches, n, model_name, relm4_path) == if_chain_arms(
            branches,
            model_name,
            relm4_path,
        ).take(n).flatten(),
    decreases n,
{
    let arms = if_chain_arms(branches, model_name, relm4_path);
    if n > 0 {
        lemma_if_chain_prefix(branches, n - 1, model_name, relm4_path);
        assert(arms.take(n) =~= arms.take(n - 1).push(arms[n - 1]));
        arms.take(n - 1).lemma_flatten_push(arms[n - 1]);
    } else {
        assert(arms.take(0).flatten() =~= Seq::<TokenView>::empty());
    }
}

proof fn lemma_match_arms_prefix(
    arms: Seq<MatchArmView>,
    n: int,
    model_name: IdentView,
    relm4_path: PathView,
)
    requires
        0 <= n <= arms.len(),
    ensures
        match_arms_tokens(arms, n, model_name, relm4_path) == match_arms(
            arms,
            model_name,
            relm4_path,
        ).take(n).flatten(),
    decreases n,
{
    let parts = match_arms(arms, model_name, relm4_path);
    if n > 0 {
        lemma_match_arms_prefix(arms, n - 1, model_name, relm4_path);
        assert(parts.take(n) =~= parts.take(n - 1).push(parts[n - 1]));
        parts.take(n - 1).lemma_flatten_push(parts[n - 1]);
    } else {
        assert(parts.take(0).flatten() =~= Seq::<TokenView>::empty());
    }
}

/// Different branches have different keys.
pub proof fn lemma_branch_keys_distinct(i: nat, j: nat)
    requires
        i != j,
    ensures
        branch_key(i) != branch_key(j),
{
    lemma_decimal_digits_distinct(i, j);
}

/// A plain assignment is emitted by the ordinary initialization alone: the
/// pass emits nothing for it, inside a branch or outside.
pub proof fn lemma_plain_assign_emits_nothing(
    assign: AssignPropertyView,
    p_name: PropertyNameView,
    w_name: IdentView,
    model_name: IdentView,
    is_conditional: bool,
    relm4_path: PathView,
)
    requires
        assign.attr is Plain,
    ensures
        assign_init_tokens(assign, p_name, w_name, model_name, is_conditional, relm4_path)
            == Seq::<TokenView>::empty(),
        property_init_tokens(
            PropertyView { name: p_name, ty: PropertyTypeView::Assign(assign) },
            w_name,
            model_name,
            is_conditional,
            relm4_path,
        ) == Seq::<TokenView>::empty(),
{
}

/// Outside a branch the pass emits nothing for an assignment, whatever its
/// kind.
pub proof fn lemma_unconditional_assign_emits_nothing(
    assign: AssignPropertyView,
    p_name: PropertyNameView,
    w_name: IdentView,
    model_name: IdentView,
    relm4_path: PathView,
)
    ensures
        assign_init_tokens(assign, p_name, w_name, model_name, false, relm4_path) == Seq::<
            TokenView,
        >::empty(),
{
}

/// Inside a branch a watched assignment is emitted as the assignment
/// statement and nothing else: the call with the value as its last argument,
/// closed by one semicolon, under no condition.
pub proof fn lemma_watch_assign_emits_assignment(
    assign: AssignPropertyView,
    p_name: PropertyNameView,
    w_name: IdentView,
    model_name: IdentView,
    relm4_path: PathView,
)
    requires
        assign.attr is Watch,
    ensures
        ({
            let out = assign_init_tokens(assign, p_name, w_name, model_name, true, relm4_path);
            &&& out == assign_tokens(assign, p_name, w_name, relm4_path)
            &&& out.len() >= 2
            &&& out.last() == punct_token(';', Spacing::Alone, p_name.span())
            &&& out[out.len() - 2] == group_token(
                Delimiter::Parenthesis,
                assign_args_tokens(p_name, w_name) + assign.expr,
                p_name.span(),
            )
        }),
{
}

/// Inside a branch a tracked assignment is emitted as `if guard { assignment }`:
/// the keyword, the guard's tokens as written, and the assignment statement
/// in braces. The model's name stands between the keyword and the guard if
/// the flag is set, and the guard follows the keyword at once if it is not.
pub proof fn lemma_track_assign_emits_guarded_assignment(
    assign: AssignPropertyView,
    p_name: PropertyNameView,
    w_name: IdentView,
    model_name: IdentView,
    relm4_path: PathView,
)
    requires
        assign.attr is Track,
    ensures
        ({
            let out = assign_init_tokens(assign, p_name, w_name, model_name, true, relm4_path);
            let guard = assign.attr->Track_0;
            let paste_model = assign.attr->Track_1;
            let span = TokenStream::spec_span(guard);
            let skip: int = if paste_model {
                2
            } else {
                1
            };
            &&& out.len() == guard.len() + skip + 1
            &&& out[0] == ident_token("if"@, span)
            &&& paste_model ==> out[1] == ident_token(model_name.name, model_name.span)
            &&& out.subrange(skip, skip + guard.len()) == guard
            &&& out.last() == group_token(
                Delimiter::Brace,
                assign_tokens(assign, p_name, w_name, relm4_path),
                span,
            )
        }),
{
    let out = assign_init_tokens(assign, p_name, w_name, model_name, true, relm4_path);
    let guard = assign.attr->Track_0;
    let paste_model = assign.attr->Track_1;
    let skip: int = if paste_model {
        2
    } else {
        1
    };
    assert(out.subrange(skip, skip + guard.len()) =~= guard);
}

/// The selector of an `if` chain with N branches is N arms, one for each
/// branch and in the order of the branches. Arm `i` is the branch's
/// keywords and condition followed by a body in braces, and the last token
/// of that body is the string literal of the decimal numeral of `i`.
pub proof fn lemma_if_chain_selector(
    branches: Seq<IfBranchView>,
    model_name: IdentView,
    relm4_path: PathView,
)
    ensures
        ({
            let arms = if_chain_arms(branches, model_name, relm4_path);
            &&& arms.len() == branches.len()
            &&& selector_tokens(ConditionalBranchesView::If(branches), model_name, relm4_path)
                == arms.flatten()
            &&& forall|i: int|
                0 <= i < branches.len() ==> (#[trigger] arms[i]).last() == group_token(
                    Delimiter::Brace,
                    widget_init_tokens(branches[i].widget, model_name, true, relm4_path).push(
                        literal_token(quoted(decimal_digits(i as nat)), Span::call_site()),
                    ),
                    Span::call_site(),
                )
            &&& forall|i: int|
                0 <= i < branches.len() ==> match branches[i].cond {
                    IfConditionView::If(c) => (#[trigger] arms[i]) == seq![
                        ident_token("if"@, Span::call_site()),
                    ] + c + seq![arms[i].last()],
                    IfConditionView::ElseIf(c) => arms[i] == seq![
                        ident_token("else"@, Span::call_site()),
                        ident_token("if"@, Span::call_site()),
                    ] + c + seq![arms[i].last()],
                    IfConditionView::Else => arms[i] == seq![
                        ident_token("else"@, Span::call_site()),
                        arms[i].last(),
                    ],
                }
        }),
{
    let arms = if_chain_arms(branches, model_name, relm4_path);
    lemma_if_chain_prefix(branches, branches.len() as int, model_name, relm4_path);
    assert(arms.take(branches.len() as int) =~= arms);
}

/// The selector of a `match` with N arms is the keyword, the matched
/// expression as written, and N arms in braces, in the order declared. Arm
/// `i` is the pattern as written, the guard as written after `if` where
/// there is one, `=>`, a body in braces and a comma, and the last token of
/// that body is the string literal of the decimal numeral of `i`.
pub proof fn lemma_match_selector(
    expr: Seq<TokenView>,
    arms: Seq<MatchArmView>,
    model_name: IdentView,
    relm4_path: PathView,
)
    ensures
        ({
            let parts = match_arms(arms, model_name, relm4_path);
            let span = Span::call_site();
            &&& parts.len() == arms.len()
            &&& selector_tokens(ConditionalBranchesView::Match(expr, arms), model_name, relm4_path)
                == seq![ident_token("match"@, span)] + expr + seq![
                group_token(Delimiter::Brace, parts.flatten(), span),
            ]
            &&& forall|i: int|
                0 <= i < arms.len() ==> {
                    let body = group_token(
                        Delimiter::Brace,
                        widget_init_tokens(arms[i].widget, model_name, true, relm4_path).push(
                            literal_token(quoted(decimal_digits(i as nat)), span),
                        ),
                        span,
                    );
                    let tail = fat_arrow_tokens(span) + seq![
                        body,
                        punct_token(',', Spacing::Alone, span),
                    ];
                    match arms[i].guard {
                        Some(guard) => (#[trigger] parts[i]) == arms[i].pattern + seq![
                            ident_token("if"@, span),
                        ] + guard + tail,
                        None => parts[i] == arms[i].pattern + tail,
                    }
                }
        }),
{
    let parts = match_arms(arms, model_name, relm4_path);
    lemma_match_arms_prefix(arms, arms.len() as int, model_name, relm4_path);
    assert(parts.take(arms.len() as int) =~= parts);
    assert forall|i: int| 0 <= i < arms.len() implies {
        let span = Span::call_site();
        let body = group_token(
            Delimiter::Brace,
            widget_init_tokens(arms[i].widget, model_name, true, relm4_path).push(
                literal_token(quoted(decimal_digits(i as nat)), span),
            ),
            span,
        );
        let tail = fat_arrow_tokens(span) + seq![body, punct_token(',', Spacing::Alone, span)];
        match arms[i].guard {
            Some(guard) => (#[trigger] parts[i]) == arms[i].pattern + seq![
                ident_token("if"@, span),
            ] + guard + tail,
            None => parts[i] == arms[i].pattern + tail,
        }
    } by {
        let span = Span::call_site();
        let body = group_token(
            Delimiter::Brace,
            widget_init_tokens(arms[i].widget, model_name, true, relm4_path).push(
                literal_token(quoted(decimal_digits(i as nat)), span),
            ),
            span,
        );
        let tail = fat_arrow_tokens(span) + seq![body, punct_token(',', Spacing::Alone, span)];
        match arms[i].guard {
            Some(guard) => {
                assert(parts[i] =~= arms[i].pattern + seq![ident_token("if"@, span)] + guard
                    + tail);
            },
            None => {
                assert(parts[i] =~= arms[i].pattern + tail);
            },
        }
    }
}

/// Appends the key of branch `index`.
fn push_branch_key(stream: &mut TokenStream, index: usize)
    ensures
        final(stream)@ == old(stream)@.push(branch_key(index as nat)),
{
    let digits = decimal_string(index);
    let key = quote_string(digits.as_str());
    stream.push_literal(key.as_str(), Span::call_site());
}

/// Appends the body of branch `index`.
fn push_branch_body(stream: &mut TokenStream, inner_update_stream: TokenStream, index: usize)
    ensures
        final(stream)@ == old(stream)@.push(branch_body(inner_update_stream@, index as nat)),
{
    let mut body = inner_update_stream;
    push_branch_key(&mut body, index);
    stream.push_group(Delimiter::Brace, body, Span::call_site());
}

impl IfBranch {
    /// Appends this branch as arm `index` of an `if` chain whose body runs
    /// `inner_update_stream` and then yields the branch's key.
    pub fn update_stream(
        &self,
        stream: &mut TokenStream,
        inner_update_stream: TokenStream,
        index: usize,
    )
        ensures
            final(stream)@ == old(stream)@ + if_arm_tokens(
                self@.cond,
                inner_update_stream@,
                index as nat,
            ),
    {
        let span = Span::call_site();
        match &self.cond {
            IfCondition::If(cond) => {
                stream.push_ident("if", span);
                stream.extend(cond);
            },
            IfCondition::ElseIf(cond) => {
                stream.push_ident("else", span);
                stream.push_ident("if", span);
                stream.extend(cond);
            },
            IfCondition::Else => {
                stream.push_ident("else", span);
            },
        }
        push_branch_body(stream, inner_update_stream, index);
        assert(stream@ =~= old(stream)@ + if_arm_tokens(
            self@.cond,
            inner_update_stream@,
            index as nat,
        ));
    }
}

impl MatchArm {
    /// Appends this arm as arm `index` of a `match` whose body runs
    /// `inner_update_stream` and then yields the arm's key.
    pub fn update_stream(
        &self,
        stream: &mut TokenStream,
        inner_update_stream: TokenStream,
        index: usize,
    )
        ensures
            final(stream)@ == old(stream)@ + match_arm_tokens(
                self@.pattern,
                self@.guard,
                inner_update_stream@,
                index as nat,
            ),
    {
        let span = Span::call_site();
        stream.extend(&self.pattern);
        match &self.guard {
            Some(guard) => {
                stream.push_ident("if", span);
                stream.extend(guard);
            },
            None => {},
        }
        stream.push_fat_arrow(span);
        push_branch_body(stream, inner_update_stream, index);
        stream.push_punct(',', Spacing::Alone, span);
        assert(stream@ =~= old(stream)@ + match_arm_tokens(
            self@.pattern,
            self@.guard,
            inner_update_stream@,
            index as nat,
        ));
    }
}

impl Property {
    /// Appends what the pass emits for this property of widget `w_name`: for
    /// an assignment its statement, for a widget what the pass emits for that
    /// widget, for a conditional widget the statement that shows its selected
    /// child, and nothing for a signal handler or for a placeholder.
    pub fn conditional_init_stream(
        &self,
        stream: &mut TokenStream,
        w_name: &Ident,
        model_name: &Ident,
        is_conditional: bool,
        relm4_path: &Path,
    )
        ensures
            final(stream)@ == old(stream)@ + property_init_tokens(
                self@,
                w_name@,
                model_name@,
                is_conditional,
                relm4_path@,
            ),
        decreases *self, 0int,
    {
        match &self.ty {
            PropertyType::Assign(assign) => assign.conditional_init_stream(
                stream,
                &self.name,
                w_name,
                model_name,
                is_conditional,
                relm4_path,
            ),
            PropertyType::Widget(widget) => {
                widget.conditional_init_stream(stream, model_name, is_conditional, relm4_path)
            },
            PropertyType::ConditionalWidget(cond_widget) => {
                cond_widget.conditional_init_stream(stream, model_name, relm4_path)
            },
            PropertyType::SignalHandler(_) => {
                assert(stream@ =~= old(stream)@ + Seq::<TokenView>::empty());
            },
            PropertyType::ParseError(_) => {
                assert(stream@ =~= old(stream)@ + Seq::<TokenView>::empty());
            },
        }
    }
}

impl Properties {
    /// Appends what the pass emits for each of the properties of widget
    /// `w_name`, in the order declared.
    pub fn conditional_init_stream(
        &self,
        stream: &mut TokenStream,
        w_name: &Ident,
        model_name: &Ident,
        is_conditional: bool,
        relm4_path: &Path,
    )
        ensures
            final(stream)@ == old(stream)@ + properties_init_tokens(
                self@,
                self@.len() as int,
                w_name@,
                model_name@,
                is_conditional,
                relm4_path@,
            ),
        decreases *self, 1int,
    {
        let ghost before = stream@;
        assert(stream@ =~= before + Seq::<TokenView>::empty());
        let mut i: usize = 0;
        while i < self.properties.len()
            invariant
                i <= self.properties.len(),
                self@.len() == self.properties.len(),
                stream@ == before + properties_init_tokens(
                    self@,
                    i as int,
                    w_name@,
                    model_name@,
                    is_conditional,
                    relm4_path@,
                ),
            decreases self.properties.len() - i,
        {
            let prop = &self.properties[i];
            assert(self@[i as int] == prop@);
            prop.conditional_init_stream(stream, w_name, model_name, is_conditional, relm4_path);
            i += 1;
            assert(stream@ =~= before + properties_init_tokens(
                self@,
                i as int,
                w_name@,
                model_name@,
                is_conditional,
                relm4_path@,
            ));
        }
    }
}

impl Widget {
    /// Runs the pass on a widget tree: appends to `stream`, for every
    /// conditional widget in the tree, the statement that selects its
    /// visible child. The assignments of the tree's properties are emitted
    /// only inside the branches of a conditional widget, and there only
    /// those that are watched or tracked.
    pub fn init_conditional_init_stream(
        &self,
        stream: &mut TokenStream,
        model_name: &Ident,
        relm4_path: &Path,
    )
        ensures
            final(stream)@ == old(stream)@ + widget_init_tokens(
                self@,
                model_name@,
                false,
                relm4_path@,
            ),
    {
        self.conditional_init_stream(stream, model_name, false, relm4_path);
    }

    /// Appends what the pass emits for this widget: for its properties, then
    /// for its returned widget. `is_conditional` says whether the widget
    /// stands inside a branch of a conditional widget.
    pub fn conditional_init_stream(
        &self,
        stream: &mut TokenStream,
        model_name: &Ident,
        is_conditional: bool,
        relm4_path: &Path,
    )
        ensures
            final(stream)@ == old(stream)@ + widget_init_tokens(
                self@,
                model_name@,
                is_conditional,
                relm4_path@,
            ),
        decreases *self, 2int,
    {
        let w_name = &self.name;
        self.properties.conditional_init_stream(
            stream,
            w_name,
            model_name,
            is_conditional,
            relm4_path,
        );
        if let Some(returned_widget) = &self.returned_widget {
            returned_widget.conditional_init_stream(stream, model_name, is_conditional, relm4_path);
        }
        assert(stream@ =~= old(stream)@ + widget_init_tokens(
            self@,
            model_name@,
            is_conditional,
            relm4_path@,
        ));
    }
}

impl ConditionalWidget {
    /// Appends the statement that shows the selected child of this
    /// conditional widget. The selector is the `if` chain or the `match` of
    /// the branches; the body of each branch is what the pass emits for the
    /// branch's widget as one that stands inside a branch, then the branch's
    /// key.
    pub fn conditional_init_stream(
        &self,
        stream: &mut TokenStream,
        model_name: &Ident,
        relm4_path: &Path,
    )
        ensures
            final(stream)@ == old(stream)@ + conditional_widget_init_tokens(
                self@,
                model_name@,
                relm4_path@,
            ),
        decreases *self, 0int,
    {
        let span = Span::call_site();
        let branch_stream = match &self.branches {
            ConditionalBranches::If(if_branches) => {
                let mut chain = TokenStream::new();
                let mut index: usize = 0;
                while index < if_branches.len()
                    invariant
                        index <= if_branches.len(),
                        self@.branches matches ConditionalBranchesView::If(views)
                            && views.len() == if_branches.len() && chain@ == if_chain_tokens(
                            views,
                            index as int,
                            model_name@,
                            relm4_path@,
                        ) && forall|k: int|
                            0 <= k < views.len() ==> views[k] == (#[trigger] if_branches@[k])@,
                        self.branches == ConditionalBranches::If(*if_branches),
                    decreases if_branches.len() - index,
                {
                    let branch = &if_branches[index];
                    let mut inner_update_stream = TokenStream::new();
                    branch.widget.conditional_init_stream(
                        &mut inner_update_stream,
                        model_name,
                        true,
                        relm4_path,
                    );
                    assert(inner_update_stream@ =~= widget_init_tokens(
                        branch.widget@,
                        model_name@,
                        true,
                        relm4_path@,
                    ));
                    branch.update_stream(&mut chain, inner_update_stream, index);
                    index += 1;
                }
                chain
            },
            ConditionalBranches::Match(expr, match_arms) => {
                let mut inner_tokens = TokenStream::new();
                let mut index: usize = 0;
                while index < match_arms.len()
                    invariant
                        index <= match_arms.len(),
                        self@.branches matches ConditionalBranchesView::Match(_, views)
                            && views.len() == match_arms.len() && inner_tokens@
                            == match_arms_tokens(views, index as int, model_name@, relm4_path@)
                            && forall|k: int|
                            0 <= k < views.len() ==> views[k] == (#[trigger] match_arms@[k])@,
                        self.branches == ConditionalBranches::Match(*expr, *match_arms),
                    decreases match_arms.len() - index,
                {
                    let match_arm = &match_arms[index];
                    let mut inner_update_stream = TokenStream::new();
                    match_arm.widget.conditional_init_stream(
                        &mut inner_update_stream,
                        model_name,
                        true,
                        relm4_path,
                    );
                    assert(inner_update_stream@ =~= widget_init_tokens(
                        match_arm.widget@,
                        model_name@,
                        true,
                        relm4_path@,
                    ));
                    match_arm.update_stream(&mut inner_tokens, inner_update_stream, index);
                    index += 1;
                }
                let mut selector = TokenStream::new();
                selector.push_ident("match", span);
                selector.extend(expr);
                selector.push_group(Delimiter::Brace, inner_tokens, span);
                assert(selector@ =~= selector_tokens(self@.branches, model_name@, relm4_path@));
                selector
            },
        };
        assert(branch_stream@ == selector_tokens(self@.branches, model_name@, relm4_path@));
        let w_name = &self.name;
        stream.push_ident("let", span);
        stream.push_ident("__current_page", span);
        stream.push_punct('=', Spacing::Alone, span);
        stream.push_literal("\"\"", span);
        stream.push_punct(';', Spacing::Alone, span);
        w_name.to_tokens(stream);
        stream.push_punct('.', Spacing::Alone, span);
        stream.push_ident("set_visible_child_name", span);
        stream.push_group(Delimiter::Parenthesis, branch_stream, span);
        stream.push_punct(';', Spacing::Alone, span);
        assert(stream@ =~= old(stream)@ + conditional_widget_init_tokens(
            self@,
            model_name@,
            relm4_path@,
        ));
    }
}

impl ReturnedWidget {
    /// Appends what the pass emits for the properties of this returned
    /// widget.
    pub fn conditional_init_stream(
        &self,
        stream: &mut TokenStream,
        model_name: &Ident,
        is_conditional: bool,
        relm4_path: &Path,
    )
        ensures
            final(stream)@ == old(stream)@ + returned_widget_init_tokens(
                self@,
                model_name@,
                is_conditional,
                relm4_path@,
            ),
        decreases *self, 2int,
    {
        let w_name = &self.name;
        self.properties.conditional_init_stream(
            stream,
            w_name,
            model_name,
            is_conditional,
            relm4_path,
        );
    }
}

impl AssignProperty {
    /// Appends what the pass emits for this assignment to property `p_name`
    /// of widget `w_name`. Inside a branch that is the assignment statement
    /// if the assignment is watched, and the statement under its guard if it
    /// is tracked. A plain assignment, and any assignment outside a branch,
    /// emits nothing.
    pub fn conditional_init_stream(
        &self,
        stream: &mut TokenStream,
        p_name: &PropertyName,
        w_name: &Ident,
        model_name: &Ident,
        is_conditional: bool,
        relm4_path: &Path,
    )
        ensures
            final(stream)@ == old(stream)@ + assign_init_tokens(
                self@,
                p_name@,
                w_name@,
                model_name@,
                is_conditional,
                relm4_path@,
            ),
    {
        // Outside a branch the assignment belongs to the ordinary initialization.
        if is_conditional {
            match &self.attr {
                AssignPropertyAttr::Plain => {},
                AssignPropertyAttr::Watch => {
                    self.assign_stream(stream, p_name, w_name, relm4_path);
                },
                AssignPropertyAttr::Track(track_stream, paste_model) => {
                    let mut assign_stream = TokenStream::new();
                    self.assign_stream(&mut assign_stream, p_name, w_name, relm4_path);
                    assert(assign_stream@ =~= assign_tokens(
                        self@,
                        p_name@,
                        w_name@,
                        relm4_path@,
                    ));
                    let span = track_stream.span();
                    stream.push_ident("if", span);
                    if *paste_model {
                        model_name.to_tokens(stream);
                    }
                    stream.extend(track_stream);
                    stream.push_group(Delimiter::Brace, assign_stream, span);
                },
            }
        }
        assert(stream@ =~= old(stream)@ + assign_init_tokens(
            self@,
            p_name@,
            w_name@,
            model_name@,
            is_conditional,
            relm4_path@,
        ));
    }
}

} // verus!
