//! The widget tree that the parser builds and the code generators walk.
//!
//! Each type has a mathematical view (`Widget` has `WidgetView`, and so on),
//! in which text is a `Seq<char>` and a list is a `Seq`. The contracts of the
//! parser and of the generators are stated over these views.

use crate::error::Error;
use crate::token::{Span, TokenStream, TokenView};
use vstd::prelude::*;

verus! {

/// An identifier with the place it was written at.
#[derive(Debug, PartialEq, Eq)]
pub struct Ident {
    pub name: String,
    pub span: Span,
}

/// An identifier as a mathematical value.
pub struct IdentView {
    pub name: Seq<char>,
    pub span: Span,
}

impl View for Ident {
    type V = IdentView;

    open spec fn view(&self) -> IdentView {
        IdentView { name: self.name@, span: self.span }
    }
}

impl Clone for Ident {
    fn clone(&self) -> (out: Ident)
        ensures
            out@ == self@,
    {
        Ident { name: self.name.clone(), span: self.span }
    }
}

impl Ident {
    /// The identifier `name` at `span`.
    pub fn new(name: &str, span: Span) -> (id: Ident)
        ensures
            id@ == (IdentView { name: name@, span }),
    {
        Ident { name: String::from_str(name), span }
    }
}

/// A path such as `gtk::Box`: identifiers separated by `::`, possibly with a
/// leading `::`.
#[derive(Debug, PartialEq, Eq)]
pub struct Path {
    pub leading_colon: bool,
    pub segments: Vec<Ident>,
}

/// A path as a mathematical value.
pub struct PathView {
    pub leading_colon: bool,
    pub segments: Seq<IdentView>,
}

/// The view of each identifier, in order.
pub open spec fn view_idents(ids: Seq<Ident>) -> Seq<IdentView> {
    Seq::new(ids.len(), |i: int| ids[i]@)
}

impl View for Path {
    type V = PathView;

    open spec fn view(&self) -> PathView {
        PathView { leading_colon: self.leading_colon, segments: view_idents(self.segments@) }
    }
}

impl PathView {
    /// The identifier that the path consists of, if it is a single one
    /// without a leading `::`.
    pub open spec fn get_ident(self) -> Option<IdentView> {
        if !self.leading_colon && self.segments.len() == 1 {
            Some(self.segments[0])
        } else {
            None
        }
    }

    /// Where the path starts.
    pub open spec fn span(self) -> Span {
        if self.segments.len() > 0 {
            self.segments[0].span
        } else {
            Span::call_site()
        }
    }
}

impl Path {
    /// The identifier that the path consists of, if it is a single one
    /// without a leading `::`.
    pub fn get_ident(&self) -> (id: Option<&Ident>)
        ensures
            match self@.get_ident() {
                Some(v) => id.is_some() && id.unwrap()@ == v,
                None => id.is_none(),
            },
    {
        if !self.leading_colon && self.segments.len() == 1 {
            Some(&self.segments[0])
        } else {
            None
        }
    }

    /// Where the path starts.
    pub fn span(&self) -> (s: Span)
        ensures
            s == self@.span(),
    {
        if self.segments.len() > 0 {
            self.segments[0].span
        } else {
            Span::call_site()
        }
    }
}

/// The constructor of a widget: its path and, where given, the tokens
/// between the parentheses of its argument list.
#[derive(Debug, PartialEq, Eq)]
pub struct WidgetFunc {
    pub path: Path,
    pub args: Option<TokenStream>,
}

/// A constructor as a mathematical value.
pub struct WidgetFuncView {
    pub path: PathView,
    pub args: Option<Seq<TokenView>>,
}

/// The view of the stream, if there is one.
pub open spec fn view_opt_tokens(ts: Option<TokenStream>) -> Option<Seq<TokenView>> {
    match ts {
        Some(ts) => Some(ts@),
        None => None,
    }
}

/// The view of the identifier, if there is one.
pub open spec fn view_opt_ident(id: Option<Ident>) -> Option<IdentView> {
    match id {
        Some(id) => Some(id@),
        None => None,
    }
}

impl View for WidgetFunc {
    type V = WidgetFuncView;

    open spec fn view(&self) -> WidgetFuncView {
        WidgetFuncView { path: self.path@, args: view_opt_tokens(self.args) }
    }
}

/// Whether a widget node stands for a binding that exists already.
#[derive(Clone, Copy, Debug, PartialEq, Eq, Structural)]
pub enum WidgetAttr {
    /// A new widget is constructed.
    Plain,
    /// The node refers to a local variable.
    Local,
    /// The node refers to a local variable that is a reference.
    LocalRef,
}

impl WidgetAttr {
    /// Whether the node refers to a local variable.
    pub open spec fn spec_is_local_attr(&self) -> bool {
        *self != WidgetAttr::Plain
    }

    /// Whether the node refers to a local variable.
    #[verifier::when_used_as_spec(spec_is_local_attr)]
    pub fn is_local_attr(&self) -> (b: bool)
        ensures
            b == self.spec_is_local_attr(),
    {
        match self {
            WidgetAttr::Plain => false,
            _ => true,
        }
    }
}

/// One attribute of an item, as written in `#[...]`.
#[derive(Debug, PartialEq, Eq)]
pub enum Attr {
    /// `#[doc = "..."]`: the tokens of the whole attribute.
    Doc(TokenStream),
    /// `#[local]`
    Local(Ident),
    /// `#[local_ref]`
    LocalRef(Ident),
    /// `#[root]`
    Root(Ident),
    /// `#[watch]`
    Watch(Ident),
    /// `#[track(guard)]`: the guard's tokens.
    Track(Ident, TokenStream),
    /// `#[name(ident)]`
    Name(Ident, Ident),
}

/// An attribute as a mathematical value.
pub enum AttrView {
    Doc(Seq<TokenView>),
    Local(IdentView),
    LocalRef(IdentView),
    Root(IdentView),
    Watch(IdentView),
    Track(IdentView, Seq<TokenView>),
    Name(IdentView, IdentView),
}

impl View for Attr {
    type V = AttrView;

    open spec fn view(&self) -> AttrView {
        match *self {
            Attr::Doc(ts) => AttrView::Doc(ts@),
            Attr::Local(kw) => AttrView::Local(kw@),
            Attr::LocalRef(kw) => AttrView::LocalRef(kw@),
            Attr::Root(kw) => AttrView::Root(kw@),
            Attr::Watch(kw) => AttrView::Watch(kw@),
            Attr::Track(kw, guard) => AttrView::Track(kw@, guard@),
            Attr::Name(kw, name) => AttrView::Name(kw@, name@),
        }
    }
}

impl AttrView {
    /// Where the attribute stands: at its keyword, or at the first token of
    /// a doc comment.
    pub open spec fn span(self) -> Span {
        match self {
            AttrView::Doc(ts) => TokenStream::spec_span(ts),
            AttrView::Local(kw) => kw.span,
            AttrView::LocalRef(kw) => kw.span,
            AttrView::Root(kw) => kw.span,
            AttrView::Watch(kw) => kw.span,
            AttrView::Track(kw, _) => kw.span,
            AttrView::Name(kw, _) => kw.span,
        }
    }
}

impl Attr {
    /// Where the attribute stands: at its keyword, or at the first token of
    /// a doc comment.
    pub fn span(&self) -> (s: Span)
        ensures
            s == self@.span(),
    {
        match self {
            Attr::Doc(ts) => ts.span(),
            Attr::Local(kw) => kw.span,
            Attr::LocalRef(kw) => kw.span,
            Attr::Root(kw) => kw.span,
            Attr::Watch(kw) => kw.span,
            Attr::Track(kw, _) => kw.span,
            Attr::Name(kw, _) => kw.span,
        }
    }
}

/// The attributes of one item, in the order written.
#[derive(Debug, PartialEq, Eq)]
pub struct Attrs {
    pub inner: Vec<Attr>,
}

/// The view of each attribute, in order.
pub open spec fn view_attrs(attrs: Seq<Attr>) -> Seq<AttrView> {
    Seq::new(attrs.len(), |i: int| attrs[i]@)
}

impl View for Attrs {
    type V = Seq<AttrView>;

    open spec fn view(&self) -> Seq<AttrView> {
        view_attrs(self.inner@)
    }
}

/// The view of the attribute list, if there is one.
pub open spec fn view_opt_attrs(attrs: Option<Attrs>) -> Option<Seq<AttrView>> {
    match attrs {
        Some(attrs) => Some(attrs@),
        None => None,
    }
}

/// When a property is assigned again after the first time.
#[derive(Debug, PartialEq, Eq)]
pub enum AssignPropertyAttr {
    /// Once, when the widgets are built.
    Plain,
    /// On every update.
    Watch,
    /// On an update where the guard holds. The flag says whether the guard
    /// is written after the model's name, as in `model.changed(..)` with
    /// the guard `.changed(..)`.
    Track(TokenStream, bool),
}

/// When a property is assigned again, as a mathematical value.
pub enum AssignPropertyAttrView {
    Plain,
    Watch,
    Track(Seq<TokenView>, bool),
}

impl View for AssignPropertyAttr {
    type V = AssignPropertyAttrView;

    open spec fn view(&self) -> AssignPropertyAttrView {
        match *self {
            AssignPropertyAttr::Plain => AssignPropertyAttrView::Plain,
            AssignPropertyAttr::Watch => AssignPropertyAttrView::Watch,
            AssignPropertyAttr::Track(guard, paste_model) => AssignPropertyAttrView::Track(
                guard@,
                paste_model,
            ),
        }
    }
}

/// The assignment of a value to a property.
#[derive(Debug, PartialEq, Eq)]
pub struct AssignProperty {
    pub attr: AssignPropertyAttr,
    /// The tokens of the value expression.
    pub expr: TokenStream,
}

/// An assignment as a mathematical value.
pub struct AssignPropertyView {
    pub attr: AssignPropertyAttrView,
    pub expr: Seq<TokenView>,
}

impl View for AssignProperty {
    type V = AssignPropertyView;

    open spec fn view(&self) -> AssignPropertyView {
        AssignPropertyView { attr: self.attr@, expr: self.expr@ }
    }
}

/// The registration of a signal handler; the code generators shown here
/// pass over it.
#[derive(Debug, PartialEq, Eq)]
pub struct SignalHandler {
    pub handler: TokenStream,
}

/// A signal handler as a mathematical value.
pub struct SignalHandlerView {
    pub handler: Seq<TokenView>,
}

impl View for SignalHandler {
    type V = SignalHandlerView;

    open spec fn view(&self) -> SignalHandlerView {
        SignalHandlerView { handler: self.handler@ }
    }
}

/// What a property is set through.
#[derive(Debug, PartialEq, Eq)]
pub enum PropertyName {
    /// A method of the widget.
    Ident(Ident),
    /// A function that takes the widget as its first argument.
    Path(Path),
    /// The container's operation for adding a child.
    RelmContainerExtAssign,
}

/// What a property is set through, as a mathematical value.
pub enum PropertyNameView {
    Ident(IdentView),
    Path(PathView),
    RelmContainerExtAssign,
}

impl View for PropertyName {
    type V = PropertyNameView;

    open spec fn view(&self) -> PropertyNameView {
        match *self {
            PropertyName::Ident(id) => PropertyNameView::Ident(id@),
            PropertyName::Path(p) => PropertyNameView::Path(p@),
            PropertyName::RelmContainerExtAssign => PropertyNameView::RelmContainerExtAssign,
        }
    }
}

impl PropertyNameView {
    /// Where the name stands; the call site for the container's operation.
    pub open spec fn span(self) -> Span {
        match self {
            PropertyNameView::Ident(id) => id.span,
            PropertyNameView::Path(p) => p.span(),
            PropertyNameView::RelmContainerExtAssign => Span::call_site(),
        }
    }
}

impl PropertyName {
    /// Where the name stands; the call site for the container's operation.
    pub fn span(&self) -> (s: Span)
        ensures
            s == self@.span(),
    {
        match self {
            PropertyName::Ident(id) => id.span,
            PropertyName::Path(p) => p.span(),
            PropertyName::RelmContainerExtAssign => Span::call_site(),
        }
    }
}

/// What a property holds.
#[derive(Debug, PartialEq, Eq)]
pub enum PropertyType {
    Assign(AssignProperty),
    Widget(Widget),
    ConditionalWidget(ConditionalWidget),
    SignalHandler(SignalHandler),
    /// Stands in for a property that could not be parsed.
    ParseError(Error),
}

/// What a property holds, as a mathematical value.
pub enum PropertyTypeView {
    Assign(AssignPropertyView),
    Widget(WidgetView),
    ConditionalWidget(ConditionalWidgetView),
    SignalHandler(SignalHandlerView),
    ParseError(Error),
}

/// One property of a widget: what is set, and to what.
#[derive(Debug, PartialEq, Eq)]
pub struct Property {
    pub name: PropertyName,
    pub ty: PropertyType,
}

/// A property as a mathematical value.
pub struct PropertyView {
    pub name: PropertyNameView,
    pub ty: PropertyTypeView,
}

/// The properties of a widget, in the order declared.
#[derive(Debug, PartialEq, Eq)]
pub struct Properties {
    pub properties: Vec<Property>,
}

/// One widget node.
#[derive(Debug, PartialEq, Eq)]
pub struct Widget {
    pub doc_attr: Option<TokenStream>,
    pub attr: WidgetAttr,
    pub mutable: bool,
    pub name: Ident,
    pub func: WidgetFunc,
    pub args: Option<TokenStream>,
    pub properties: Properties,
    /// The `Some` of a constructor written as `Some(...)`.
    pub wrapper: Option<Ident>,
    pub ref_token: bool,
    pub deref_token: bool,
    pub returned_widget: Option<ReturnedWidget>,
}

/// A widget as a mathematical value.
pub struct WidgetView {
    pub doc_attr: Option<Seq<TokenView>>,
    pub attr: WidgetAttr,
    pub mutable: bool,
    pub name: IdentView,
    pub func: WidgetFuncView,
    pub args: Option<Seq<TokenView>>,
    pub properties: Seq<PropertyView>,
    pub wrapper: Option<IdentView>,
    pub ref_token: bool,
    pub deref_token: bool,
    pub returned_widget: Option<ReturnedWidgetView>,
}

/// The object that adding a widget to its container hands back.
#[derive(Debug, PartialEq, Eq)]
pub struct ReturnedWidget {
    pub name: Ident,
    pub properties: Properties,
}

/// A returned widget as a mathematical value.
pub struct ReturnedWidgetView {
    pub name: IdentView,
    pub properties: Seq<PropertyView>,
}

/// A container that shows one of several child widgets.
#[derive(Debug, PartialEq, Eq)]
pub struct ConditionalWidget {
    pub name: Ident,
    pub branches: ConditionalBranches,
}

/// A conditional widget as a mathematical value.
pub struct ConditionalWidgetView {
    pub name: IdentView,
    pub branches: ConditionalBranchesView,
}

/// The branches of a conditional widget, each with the child that it
/// shows. A branch is known by its place among the branches.
#[derive(Debug, PartialEq, Eq)]
pub enum ConditionalBranches {
    If(Vec<IfBranch>),
    /// The tokens of the matched expression, and the arms.
    Match(TokenStream, Vec<MatchArm>),
}

/// The branches of a conditional widget as a mathematical value.
pub enum ConditionalBranchesView {
    If(Seq<IfBranchView>),
    Match(Seq<TokenView>, Seq<MatchArmView>),
}

/// How a branch of an `if` chain starts.
#[derive(Debug, PartialEq, Eq)]
pub enum IfCondition {
    /// `if` and the tokens of the condition.
    If(TokenStream),
    /// `else if` and the tokens of the condition.
    ElseIf(TokenStream),
    /// `else`
    Else,
}

/// How a branch of an `if` chain starts, as a mathematical value.
pub enum IfConditionView {
    If(Seq<TokenView>),
    ElseIf(Seq<TokenView>),
    Else,
}

impl View for IfCondition {
    type V = IfConditionView;

    open spec fn view(&self) -> IfConditionView {
        match *self {
            IfCondition::If(c) => IfConditionView::If(c@),
            IfCondition::ElseIf(c) => IfConditionView::ElseIf(c@),
            IfCondition::Else => IfConditionView::Else,
        }
    }
}

/// One branch of an `if` chain.
#[derive(Debug, PartialEq, Eq)]
pub struct IfBranch {
    pub cond: IfCondition,
    pub widget: Widget,
}

/// A branch of an `if` chain as a mathematical value.
pub struct IfBranchView {
    pub cond: IfConditionView,
    pub widget: WidgetView,
}

/// Whether `branches` are the start of an `if` chain that can go on: an
/// `if` first, then `else if`s.
pub open spec fn is_open_if_chain(branches: Seq<IfBranchView>) -> bool {
    &&& branches.len() > 0
    &&& branches[0].cond is If
    &&& forall|i: int| 1 <= i < branches.len() ==> (#[trigger] branches[i]).cond is ElseIf
}

/// Whether `branches` are an `if` chain: an `if` first, then any number of
/// `else if`s, then at most one `else`. Of the branches of a chain at most
/// one is taken, and exactly one where the chain ends in `else`.
pub open spec fn is_if_chain(branches: Seq<IfBranchView>) -> bool {
    &&& branches.len() > 0
    &&& branches[0].cond is If
    &&& forall|i: int|
        1 <= i < branches.len() - 1 ==> (#[trigger] branches[i]).cond is ElseIf
    &&& branches.len() > 1 ==> !(branches.last().cond is If)
}

/// One arm of a `match`.
#[derive(Debug, PartialEq, Eq)]
pub struct MatchArm {
    pub pattern: TokenStream,
    /// The tokens after `if`, where the arm has a guard.
    pub guard: Option<TokenStream>,
    pub widget: Widget,
}

/// An arm of a `match` as a mathematical value.
pub struct MatchArmView {
    pub pattern: Seq<TokenView>,
    pub guard: Option<Seq<TokenView>>,
    pub widget: WidgetView,
}

/// The view of a widget.
pub open spec fn view_widget(w: Widget) -> WidgetView
    decreases w, 0int,
{
    WidgetView {
        doc_attr: view_opt_tokens(w.doc_attr),
        attr: w.attr,
        mutable: w.mutable,
        name: w.name@,
        func: w.func@,
        args: view_opt_tokens(w.args),
        properties: view_properties(w.properties.properties@),
        wrapper: view_opt_ident(w.wrapper),
        ref_token: w.ref_token,
        deref_token: w.deref_token,
        returned_widget: match w.returned_widget {
            Some(rw) => Some(view_returned_widget(rw)),
            None => None,
        },
    }
}

/// The view of a returned widget.
pub open spec fn view_returned_widget(rw: ReturnedWidget) -> ReturnedWidgetView
    decreases rw, 0int,
{
    ReturnedWidgetView { name: rw.name@, properties: view_properties(rw.properties.properties@) }
}

/// The view of each property, in order.
pub open spec fn view_properties(ps: Seq<Property>) -> Seq<PropertyView>
    decreases ps, 1int,
{
    Seq::new(
        ps.len(),
        |i: int|
            if 0 <= i < ps.len() {
                view_property(ps[i])
            } else {
                arbitrary()
            },
    )
}

/// The view of a property.
pub open spec fn view_property(p: Property) -> PropertyView
    decreases p, 0int,
{
    PropertyView {
        name: p.name@,
        ty: match p.ty {
            PropertyType::Assign(a) => PropertyTypeView::Assign(a@),
            PropertyType::Widget(w) => PropertyTypeView::Widget(view_widget(w)),
            PropertyType::ConditionalWidget(c) => PropertyTypeView::ConditionalWidget(
                view_conditional_widget(c),
            ),
            PropertyType::SignalHandler(h) => PropertyTypeView::SignalHandler(h@),
            PropertyType::ParseError(e) => PropertyTypeView::ParseError(e),
        },
    }
}

/// The view of a conditional widget.
pub open spec fn view_conditional_widget(c: ConditionalWidget) -> ConditionalWidgetView
    decreases c, 0int,
{
    ConditionalWidgetView {
        name: c.name@,
        branches: match c.branches {
            ConditionalBranches::If(bs) => ConditionalBranchesView::If(view_if_branches(bs@)),
            ConditionalBranches::Match(expr, arms) => ConditionalBranchesView::Match(
                expr@,
                view_match_arms(arms@),
            ),
        },
    }
}

/// The view of each branch, in order.
pub open spec fn view_if_branches(bs: Seq<IfBranch>) -> Seq<IfBranchView>
    decreases bs, 1int,
{
    Seq::new(
        bs.len(),
        |i: int|
            if 0 <= i < bs.len() {
                IfBranchView { cond: bs[i].cond@, widget: view_widget(bs[i].widget) }
            } else {
                arbitrary()
            },
    )
}

/// The view of each arm, in order.
pub open spec fn view_match_arms(arms: Seq<MatchArm>) -> Seq<MatchArmView>
    decreases arms, 1int,
{
    Seq::new(
        arms.len(),
        |i: int|
            if 0 <= i < arms.len() {
                MatchArmView {
                    pattern: arms[i].pattern@,
                    guard: view_opt_tokens(arms[i].guard),
                    widget: view_widget(arms[i].widget),
                }
            } else {
                arbitrary()
            },
    )
}

impl View for Widget {
    type V = WidgetView;

    open spec fn view(&self) -> WidgetView {
        view_widget(*self)
    }
}

impl View for ReturnedWidget {
    type V = ReturnedWidgetView;

    open spec fn view(&self) -> ReturnedWidgetView {
        view_returned_widget(*self)
    }
}

impl View for Property {
    type V = PropertyView;

    open spec fn view(&self) -> PropertyView {
        view_property(*self)
    }
}

impl View for Properties {
    type V = Seq<PropertyView>;

    open spec fn view(&self) -> Seq<PropertyView> {
        view_properties(self.properties@)
    }
}

impl View for ConditionalWidget {
    type V = ConditionalWidgetView;

    open spec fn view(&self) -> ConditionalWidgetView {
        view_conditional_widget(*self)
    }
}

impl View for IfBranch {
    type V = IfBranchView;

    open spec fn view(&self) -> IfBranchView {
        IfBranchView { cond: self.cond@, widget: self.widget@ }
    }
}

impl View for MatchArm {
    type V = MatchArmView;

    open spec fn view(&self) -> MatchArmView {
        MatchArmView {
            pattern: self.pattern@,
            guard: view_opt_tokens(self.guard),
            widget: self.widget@,
        }
    }
}

impl Properties {
    /// No properties.
    pub fn empty() -> (ps: Properties)
        ensures
            ps@ == Seq::<PropertyView>::empty(),
    {
        let ps = Properties { properties: Vec::new() };
        assert(ps@ =~= Seq::<PropertyView>::empty());
        ps
    }
}

} // verus!
