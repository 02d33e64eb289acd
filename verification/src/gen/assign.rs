//! The statement that assigns a value to a property of a widget.

use crate::token::{
    group_token, ident_token, path_sep_tokens, punct_token, Delimiter, Spacing, TokenStream,
    TokenView,
};
use crate::widgets::{
    AssignProperty, AssignPropertyView, Ident, IdentView, Path, PathView, PropertyName,
    PropertyNameView,
};
use vstd::prelude::*;

verus! {

/// The tokens of the first `n` segments of a path, with `::` between them.
pub open spec fn path_segments_tokens(segments: Seq<IdentView>, n: int) -> Seq<TokenView>
    decreases n,
{
    if n <= 0 {
        Seq::empty()
    } else if n == 1 {
        seq![ident_token(segments[0].name, segments[0].span)]
    } else {
        path_segments_tokens(segments, n - 1) + path_sep_tokens(segments[n - 1].span)
            + seq![ident_token(segments[n - 1].name, segments[n - 1].span)]
    }
}

/// The tokens of a path.
pub open spec fn path_tokens(path: PathView) -> Seq<TokenView> {
    if path.leading_colon {
        path_sep_tokens(path.span()) + path_segments_tokens(
            path.segments,
            path.segments.len() as int,
        )
    } else {
        path_segments_tokens(path.segments, path.segments.len() as int)
    }
}

/// The function that an assignment calls: `widget.property`, the path of
/// the property, or the container's operation for adding a child.
pub open spec fn assign_fn_tokens(
    p_name: PropertyNameView,
    w_name: IdentView,
    relm4_path: PathView,
) -> Seq<TokenView> {
    let span = p_name.span();
    match p_name {
        PropertyNameView::Ident(id) => seq![
            ident_token(w_name.name, w_name.span),
            punct_token('.', Spacing::Alone, span),
            ident_token(id.name, id.span),
        ],
        PropertyNameView::Path(path) => path_tokens(path),
        PropertyNameView::RelmContainerExtAssign => path_tokens(relm4_path) + path_sep_tokens(span)
            + seq![ident_token("RelmContainerExt"@, span)] + path_sep_tokens(span)
            + seq![ident_token("container_add"@, span)],
    }
}

/// The arguments that stand before the value: none for a method, `&widget,`
/// for a function.
pub open spec fn assign_args_tokens(p_name: PropertyNameView, w_name: IdentView) -> Seq<
    TokenView,
> {
    let span = p_name.span();
    match p_name {
        PropertyNameView::Ident(_) => Seq::empty(),
        _ => seq![
            punct_token('&', Spacing::Alone, span),
            ident_token(w_name.name, w_name.span),
            punct_token(',', Spacing::Alone, span),
        ],
    }
}

/// The assignment statement: the function, its arguments in parentheses
/// with the value last, and a semicolon.
pub open spec fn assign_tokens(
    assign: AssignPropertyView,
    p_name: PropertyNameView,
    w_name: IdentView,
    relm4_path: PathView,
) -> Seq<TokenView> {
    let span = p_name.span();
    assign_fn_tokens(p_name, w_name, relm4_path) + seq![
        group_token(
            Delimiter::Parenthesis,
            assign_args_tokens(p_name, w_name) + assign.expr,
            span,
        ),
        punct_token(';', Spacing::Alone, span),
    ]
}

impl Ident {
    /// Appends the identifier.
    pub fn to_tokens(&self, stream: &mut TokenStream)
        ensures
            final(stream)@ == old(stream)@.push(ident_token(self@.name, self@.span)),
    {
        stream.push_ident(self.name.as_str(), self.span);
    }
}

impl Path {
    /// Appends the path.
    pub fn to_tokens(&self, stream: &mut TokenStream)
        ensures
            final(stream)@ == old(stream)@ + path_tokens(self@),
    {
        let ghost before = stream@;
        if self.leading_colon {
            stream.push_path_sep(self.span());
        }
        let ghost head = stream@;
        let mut i: usize = 0;
        while i < self.segments.len()
            invariant
                i <= self.segments.len(),
                stream@ == head + path_segments_tokens(self@.segments, i as int),
            decreases self.segments.len() - i,
        {
            let seg = &self.segments[i];
            assert(self@.segments[i as int] == seg@);
            if i > 0 {
                stream.push_path_sep(seg.span);
            }
            seg.to_tokens(stream);
            i += 1;
            assert(stream@ =~= head + path_segments_tokens(self@.segments, i as int));
        }
        assert(stream@ =~= before + path_tokens(self@));
    }
}

impl PropertyName {
    /// Appends the function that an assignment to this property calls.
    pub fn assign_fn_stream(&self, stream: &mut TokenStream, w_name: &Ident, relm4_path: &Path)
        ensures
            final(stream)@ == old(stream)@ + assign_fn_tokens(self@, w_name@, relm4_path@),
    {
        let span = self.span();
        match self {
            PropertyName::Ident(id) => {
                w_name.to_tokens(stream);
                stream.push_punct('.', Spacing::Alone, span);
                id.to_tokens(stream);
            },
            PropertyName::Path(path) => {
                path.to_tokens(stream);
            },
            PropertyName::RelmContainerExtAssign => {
                relm4_path.to_tokens(stream);
                stream.push_path_sep(span);
                stream.push_ident("RelmContainerExt", span);
                stream.push_path_sep(span);
                stream.push_ident("container_add", span);
            },
        }
        assert(stream@ =~= old(stream)@ + assign_fn_tokens(self@, w_name@, relm4_path@));
    }

    /// Appends the arguments that stand before the assigned value.
    pub fn assign_args_stream(&self, stream: &mut TokenStream, w_name: &Ident)
        ensures
            final(stream)@ == old(stream)@ + assign_args_tokens(self@, w_name@),
    {
        let span = self.span();
        match self {
            PropertyName::Ident(_) => {},
            _ => {
                stream.push_punct('&', Spacing::Alone, span);
                w_name.to_tokens(stream);
                stream.push_punct(',', Spacing::Alone, span);
            },
        }
        assert(stream@ =~= old(stream)@ + assign_args_tokens(self@, w_name@));
    }
}

impl AssignProperty {
    /// Appends the statement that assigns the value to property `p_name` of
    /// widget `w_name`.
    pub fn assign_stream(
        &self,
        stream: &mut TokenStream,
        p_name: &PropertyName,
        w_name: &Ident,
        relm4_path: &Path,
    )
        ensures
            final(stream)@ == old(stream)@ + assign_tokens(
                self@,
                p_name@,
                w_name@,
                relm4_path@,
            ),
    {
        let span = p_name.span();
        p_name.assign_fn_stream(stream, w_name, relm4_path);
        let mut args = TokenStream::new();
        p_name.assign_args_stream(&mut args, w_name);
        args.extend(&self.expr);
        assert(args@ =~= assign_args_tokens(p_name@, w_name@) + self@.expr);
        stream.push_group(Delimiter::Parenthesis, args, span);
        stream.push_punct(';', Spacing::Alone, span);
        assert(stream@ =~= old(stream)@ + assign_tokens(self@, p_name@, w_name@, relm4_path@));
    }
}

} // verus!
