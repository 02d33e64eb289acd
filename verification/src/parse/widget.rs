//! The parser of one widget node.

use crate::cursor::Cursor;
use crate::error::{Error, ErrorKind};
use crate::parse::grammar::{self, parses_as, same_tokens};
use crate::token::{Delimiter, TokenStream};
use crate::widgets::{
    view_opt_attrs, view_opt_ident, view_opt_tokens, Attr, Attrs, Ident, Properties,
    ReturnedWidget, Widget, WidgetAttr, WidgetFunc,
};
use vstd::prelude::*;

verus! {

/// What the attributes of a widget say.
pub struct WidgetAttrs {
    pub attr: WidgetAttr,
    pub doc_attr: Option<TokenStream>,
    pub name: Option<Ident>,
}

impl View for WidgetAttrs {
    type V = grammar::WidgetAttrsView;

    open spec fn view(&self) -> grammar::WidgetAttrsView {
        grammar::WidgetAttrsView {
            attr: self.attr,
            doc_attr: view_opt_tokens(self.doc_attr),
            name: view_opt_ident(self.name),
        }
    }
}

/// The part of a widget from its constructor to the end of its property
/// block.
pub struct WidgetFuncInfo {
    /// The `Some` of a constructor written as `Some(...)`.
    pub wrapper: Option<Ident>,
    pub ref_token: bool,
    pub deref_token: bool,
    pub func: WidgetFunc,
    pub properties: Properties,
}

impl View for WidgetFuncInfo {
    type V = grammar::WidgetFuncInfoView;

    open spec fn view(&self) -> grammar::WidgetFuncInfoView {
        grammar::WidgetFuncInfoView {
            wrapper: view_opt_ident(self.wrapper),
            ref_token: self.ref_token,
            deref_token: self.deref_token,
            func: self.func@,
            properties: self.properties@,
        }
    }
}

/// Parses the markers `&` and `*` and the constructor after them.
fn parse_marked_func<'a>(input: &mut Cursor<'a>) -> (r: Result<(bool, bool, WidgetFunc), Error>)
    ensures
        same_tokens(old(input)@, final(input)@),
        match grammar::parse_marked_func(old(input)@) {
            Ok((ref_token, deref_token, func, pos)) => r is Ok && r->Ok_0.0 == ref_token
                && r->Ok_0.1 == deref_token && r->Ok_0.2@ == func && final(input)@.pos == pos,
            Err(e) => r is Err && r->Err_0 == e,
        },
{
    reveal(grammar::parse_marked_func);
    let ref_token = input.parse_punct('&');
    let deref_token = input.parse_punct('*');
    match WidgetFunc::parse(input) {
        Ok(func) => Ok((ref_token, deref_token, func)),
        Err(e) => Err(e),
    }
}

impl Widget {
    /// Parses the widget at the cursor. `attributes` and `args` are what
    /// was read before it; `names` is the number that the next generated
    /// name will carry.
    ///
    /// The widget's name is the one given with `=`, or the one given by a
    /// `name` attribute, or for a widget marked `local` or `local_ref` the
    /// identifier that is its constructor, or else a name derived from the
    /// constructor. A name given in two of these ways is refused.
    #[verifier::rlimit(40)]
    pub fn parse<'a>(
        input: &mut Cursor<'a>,
        attributes: Option<Attrs>,
        args: Option<TokenStream>,
        names: &mut u16,
    ) -> (r: Result<Widget, Error>)
        ensures
            parses_as(
                r,
                old(input)@,
                final(input)@,
                *final(names),
                grammar::parse_widget(
                    old(input)@,
                    view_opt_attrs(attributes),
                    view_opt_tokens(args),
                    *old(names),
                ),
            ),
        decreases old(input)@.tokens, 13int, 0int,
    {
        reveal(grammar::parse_widget);
        reveal(grammar::parse_properties);
        reveal(grammar::parse_returned_widget);
        reveal(grammar::parse_widget_func);
        reveal(grammar::widget_name);
        let attrs = match Self::process_attributes(attributes) {
            Ok(attrs) => attrs,
            Err(e) => {
                return Err(e);
            },
        };
        let attr = attrs.attr;
        let doc_attr = attrs.doc_attr;
        let new_name = attrs.name;
        // Look for `mut`.
        let mutable = input.parse_word("mut");

        // Look for the form `name = Widget`.
        let name_opt: Option<Ident> = if input.peek2_punct('=') {
            if attr.is_local_attr() {
                return Err(Error::new(input.span(), ErrorKind::RenamedLocal));
            } else {
                let name = match input.parse_ident() {
                    Ok(name) => name,
                    Err(e) => {
                        return Err(e);
                    },
                };
                let _eq = input.parse_punct('=');
                Some(name)
            }
        } else {
            None
        };
        let info = match Self::parse_widget_func(input, names) {
            Ok(info) => info,
            Err(e) => {
                return Err(e);
            },
        };

        // The name may be given in one way only.
        let mut name_set = name_opt.is_some();
        if new_name.is_some() {
            if name_set {
                let name = name_opt.unwrap();
                return Err(Error::new(name.span, ErrorKind::NameSpecifiedTwice));
            } else {
                name_set = true;
            }
        }
        if attr.is_local_attr() && name_set {
            return Err(Error::new(input.span(), ErrorKind::NameSpecifiedTwice));
        }
        // Derive a name if none was given.

        let name = match name_opt {
            Some(name) => name,
            None => match new_name {
                Some(name) => name,
                None => if attr.is_local_attr() {
                    match Self::local_attr_name(&info.func) {
                        Ok(name) => name,
                        Err(e) => {
                            return Err(e);
                        },
                    }
                } else {
                    info.func.snake_case_name(names)
                },
            },
        };
        let returned_widget = if input.peek_operator('-', '>') {
            proof {
                input.lemma_len_fits();
            }
            input.advance(2);
            match ReturnedWidget::parse(input, names) {
                Ok(returned) => Some(returned),
                Err(e) => {
                    return Err(e);
                },
            }
        } else {
            None
        };
        Ok(
            Widget {
                doc_attr,
                attr,
                mutable,
                name,
                func: info.func,
                args,
                properties: info.properties,
                wrapper: info.wrapper,
                ref_token: info.ref_token,
                deref_token: info.deref_token,
                returned_widget,
            },
        )
    }

    /// Parses the widget that is added to its container, after its
    /// constructor `func` has been read: the property block at the cursor,
    /// or no properties where a comma stands there.
    pub fn parse_for_container_ext<'a>(
        input: &mut Cursor<'a>,
        func: WidgetFunc,
        attributes: Option<Attrs>,
        names: &mut u16,
    ) -> (r: Result<Widget, Error>)
        ensures
            parses_as(
                r,
                old(input)@,
                final(input)@,
                *final(names),
                grammar::parse_for_container_ext(
                    old(input)@,
                    func@,
                    view_opt_attrs(attributes),
                    *old(names),
                ),
            ),
        decreases old(input)@.tokens, 13int, 0int,
    {
        reveal(grammar::parse_for_container_ext);
        reveal(grammar::parse_properties);
        reveal(grammar::widget_name);
        let attrs = match Self::process_attributes(attributes) {
            Ok(attrs) => attrs,
            Err(e) => {
                return Err(e);
            },
        };
        let attr = attrs.attr;
        let doc_attr = attrs.doc_attr;
        let new_name = attrs.name;
        let properties = if input.peek_punct(',') {
            Properties::empty()
        } else {
            match input.parse_group(Delimiter::Brace) {
                Some(inner) => {
                    let mut inner = inner;
                    Properties::parse(&mut inner, names)
                },
                None => {
                    return Err(Error::new(input.span(), ErrorKind::ExpectedBraces));
                },
            }
        };

        // The name may be given in one way only.
        if attr.is_local_attr() {
            if let Some(name) = &new_name {
                return Err(Error::new(name.span, ErrorKind::NameSpecifiedTwice));
            }
        }
        // Derive a name if none was given.

        let name = match new_name {
            Some(name) => name,
            None => if attr.is_local_attr() {
                match Self::local_attr_name(&func) {
                    Ok(name) => name,
                    Err(e) => {
                        return Err(e);
                    },
                }
            } else {
                func.snake_case_name(names)
            },
        };
        Ok(
            Widget {
                doc_attr,
                attr,
                mutable: false,
                name,
                func,
                args: None,
                properties,
                wrapper: None,
                ref_token: true,
                deref_token: false,
                returned_widget: None,
            },
        )
    }

    /// Reads the attributes of a widget: whether it is marked `local` or
    /// `local_ref`, its doc comments put together in the order written,
    /// and the name that a `name` attribute gives it.
    ///
    /// Fails at the first attribute that repeats `local`, `local_ref` or
    /// `name`, that stands beside the other of `local` and `local_ref`, or
    /// that a widget cannot have.
    #[verifier::loop_isolation(false)]
    pub fn process_attributes(attrs: Option<Attrs>) -> (r: Result<WidgetAttrs, Error>)
        ensures
            match grammar::process_attributes(view_opt_attrs(attrs)) {
                Ok(v) => r is Ok && r->Ok_0@ == v,
                Err(e) => r is Err && r->Err_0 == e,
            },
    {
        reveal(grammar::process_attributes);
        reveal(grammar::widget_attrs_prefix);
        let mut state = WidgetAttrs { attr: WidgetAttr::Plain, doc_attr: None, name: None };
        if let Some(attrs) = attrs {
            let mut i: usize = 0;
            while i < attrs.inner.len()
                invariant
                    i <= attrs.inner.len(),
                    grammar::widget_attrs_prefix(attrs@, i as int) == Ok::<
                        grammar::WidgetAttrsView,
                        Error,
                    >(state@),
                decreases attrs.inner.len() - i,
            {
                let attr = &attrs.inner[i];
                assert(attrs@[i as int] == attr@);
                proof {
                    grammar::lemma_widget_attrs_error(attrs@, i as int + 1, attrs@.len() as int);
                }
                match attr {
                    Attr::Local(_) => {
                        if state.attr == WidgetAttr::Plain {
                            state.attr = WidgetAttr::Local;
                        } else {
                            return Err(Error::new(attr.span(), ErrorKind::AttributeTwice));
                        }
                    },
                    Attr::LocalRef(_) => {
                        if state.attr == WidgetAttr::Plain {
                            state.attr = WidgetAttr::LocalRef;
                        } else {
                            return Err(Error::new(attr.span(), ErrorKind::AttributeTwice));
                        }
                    },
                    Attr::Doc(tokens) => {
                        let mut doc = match state.doc_attr {
                            Some(doc) => doc,
                            None => TokenStream::new(),
                        };
                        doc.extend(tokens);
                        assert(doc@ =~= match state@.doc_attr {
                            Some(d) => d + tokens@,
                            None => tokens@,
                        });
                        state.doc_attr = Some(doc);
                    },
                    Attr::Name(_, name_value) => {
                        if state.name.is_some() {
                            return Err(Error::new(attr.span(), ErrorKind::AttributeTwice));
                        } else {
                            state.name = Some(name_value.clone());
                        }
                    },
                    _ => {
                        return Err(Error::new(attr.span(), ErrorKind::InvalidWidgetAttribute));
                    },
                }
                i += 1;
            }
            Ok(state)
        } else {
            Ok(state)
        }
    }

    /// The name of a widget marked `local` or `local_ref`: its constructor,
    /// which must be the single identifier of the local variable.
    pub fn local_attr_name(func: &WidgetFunc) -> (r: Result<Ident, Error>)
        ensures
            match grammar::local_attr_name(func@) {
                Ok(name) => r is Ok && r->Ok_0@ == name,
                Err(e) => r is Err && r->Err_0 == e,
            },
    {
        if let Some(name) = func.path.get_ident() {
            Ok(name.clone())
        } else {
            Err(Error::new(func.path.span(), ErrorKind::ExpectedLocalIdent))
        }
    }

    /// Parses the part of a widget from its constructor to the end of its
    /// property block.
    ///
    /// The constructor is taken to be wrapped in `Some(...)` if the word
    /// `Some` stands at the cursor with a group in parentheses directly
    /// after it; the word alone is a constructor like any other.
    pub fn parse_widget_func<'a>(input: &mut Cursor<'a>, names: &mut u16) -> (r: Result<
        WidgetFuncInfo,
        Error,
    >)
        ensures
            parses_as(
                r,
                old(input)@,
                final(input)@,
                *final(names),
                grammar::parse_widget_func(old(input)@, *old(names)),
            ),
        decreases old(input)@.tokens, 12int, 0int,
    {
        reveal(grammar::parse_properties);
        reveal(grammar::parse_widget_func);
        reveal(grammar::parse_func_layout);
        let upcoming_some = {
            let mut forked_input = input.fork();
            if forked_input.peek_ident() {
                match forked_input.parse_ident() {
                    Ok(ident) => crate::text::str_eq(ident.name.as_str(), "Some"),
                    Err(e) => {
                        return Err(e);
                    },
                }
            } else {
                false
            }
        };
        proof {
            lemma_some_is_ident();
        }
        let (wrapper, ref_token, deref_token, func) = if upcoming_some && input.peek2_group(
            Delimiter::Parenthesis,
        ) {
            let ident = match input.parse_ident() {
                Ok(ident) => ident,
                Err(e) => {
                    return Err(e);
                },
            };
            let mut paren_input = match input.parse_group(Delimiter::Parenthesis) {
                Some(inner) => inner,
                None => {
                    return Err(Error::new(input.span(), ErrorKind::ExpectedParentheses));
                },
            };
            let (ref_token, deref_token, func) = match parse_marked_func(&mut paren_input) {
                Ok(marked) => marked,
                Err(e) => {
                    return Err(e);
                },
            };
            if !paren_input.is_empty() {
                return Err(Error::new(paren_input.span(), ErrorKind::UnexpectedToken));
            }
            (Some(ident), ref_token, deref_token, func)
        } else {
            let (ref_token, deref_token, func) = match parse_marked_func(input) {
                Ok(marked) => marked,
                Err(e) => {
                    return Err(e);
                },
            };
            (None, ref_token, deref_token, func)
        };
        let mut inner = match input.parse_group(Delimiter::Brace) {
            Some(inner) => inner,
            None => {
                return Err(Error::new(input.span(), ErrorKind::ExpectedBraces));
            },
        };
        let properties = Properties::parse(&mut inner, names);
        Ok(WidgetFuncInfo { wrapper, ref_token, deref_token, func, properties })
    }
}

/// `Some` is no reserved word.
proof fn lemma_some_is_ident()
    ensures
        !crate::text::is_reserved_word("Some"@),
{
    reveal(crate::text::is_reserved_word);
    reveal_strlit("Some");
    reveal_strlit("_");
    reveal_strlit("abstract");
    reveal_strlit("as");
    reveal_strlit("become");
    reveal_strlit("box");
    reveal_strlit("break");
    reveal_strlit("const");
    reveal_strlit("continue");
    reveal_strlit("crate");
    reveal_strlit("do");
    reveal_strlit("else");
    reveal_strlit("enum");
    reveal_strlit("extern");
    reveal_strlit("false");
    reveal_strlit("final");
    reveal_strlit("fn");
    reveal_strlit("for");
    reveal_strlit("if");
    reveal_strlit("impl");
    reveal_strlit("in");
    reveal_strlit("let");
    reveal_strlit("loop");
    reveal_strlit("macro");
    reveal_strlit("match");
    reveal_strlit("mod");
    reveal_strlit("move");
    reveal_strlit("mut");
    reveal_strlit("override");
    reveal_strlit("priv");
    reveal_strlit("pub");
    reveal_strlit("ref");
    reveal_strlit("return");
    reveal_strlit("Self");
    reveal_strlit("self");
    reveal_strlit("static");
    reveal_strlit("struct");
    reveal_strlit("super");
    reveal_strlit("trait");
    reveal_strlit("true");
    reveal_strlit("type");
    reveal_strlit("typeof");
    reveal_strlit("unsafe");
    reveal_strlit("unsized");
    reveal_strlit("use");
    reveal_strlit("virtual");
    reveal_strlit("where");
    reveal_strlit("while");
    reveal_strlit("yield");
    let some = "Some"@;
    assert(some[0] == 'S' && some.len() == 4);
    assert("Self"@[1] == 'e' && some[1] == 'o');
}

} // verus!
