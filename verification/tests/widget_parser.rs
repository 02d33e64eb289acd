use relm4_macros::cursor::Cursor;
use relm4_macros::error::{Error, ErrorKind};
use relm4_macros::parse::conditional::process_conditional_attributes;
use relm4_macros::parse::func::{join_snake_case, numbered_name, take_name};
use relm4_macros::parse::property::process_assign_attributes;
use relm4_macros::token::{Delimiter, Spacing, Span, Token, TokenKind, TokenStream};
use relm4_macros::widgets::{
    AssignPropertyAttr, Attr, Attrs, ConditionalBranches, ConditionalWidget, Ident,
    IfCondition, Path, Properties, Property, PropertyName, PropertyType, ReturnedWidget, Widget,
    WidgetAttr, WidgetFunc,
};
use std::str::FromStr;

fn convert(stream: proc_macro2::TokenStream, next: &mut usize, numbered: bool) -> TokenStream {
    let mut tokens = Vec::new();
    for tree in stream {
        let span = if numbered {
            *next += 1;
            Span { lo: *next - 1, hi: *next }
        } else {
            Span::call_site()
        };
        let kind = match tree {
            proc_macro2::TokenTree::Ident(ident) => TokenKind::Ident(ident.to_string()),
            proc_macro2::TokenTree::Punct(punct) => TokenKind::Punct(
                punct.as_char(),
                match punct.spacing() {
                    proc_macro2::Spacing::Alone => Spacing::Alone,
                    proc_macro2::Spacing::Joint => Spacing::Joint,
                },
            ),
            proc_macro2::TokenTree::Literal(literal) => TokenKind::Literal(literal.to_string()),
            proc_macro2::TokenTree::Group(group) => TokenKind::Group(
                match group.delimiter() {
                    proc_macro2::Delimiter::Parenthesis => Delimiter::Parenthesis,
                    proc_macro2::Delimiter::Brace => Delimiter::Brace,
                    proc_macro2::Delimiter::Bracket => Delimiter::Bracket,
                    proc_macro2::Delimiter::None => Delimiter::Invisible,
                },
                convert(group.stream(), next, numbered),
            ),
        };
        tokens.push(Token { kind, span });
    }
    TokenStream { tokens }
}

/// The tokens of `source`. Token number `k`, counted from 1 and with a
/// group before the tokens inside it, has the span from `k` to `k + 1`.
fn lex(source: &str) -> TokenStream {
    let mut next = 1;
    convert(proc_macro2::TokenStream::from_str(source).unwrap(), &mut next, true)
}

/// The tokens of `source`, all with the span of the call site.
fn lex_plain(source: &str) -> TokenStream {
    let mut next = 1;
    convert(proc_macro2::TokenStream::from_str(source).unwrap(), &mut next, false)
}

fn plain(stream: &TokenStream) -> TokenStream {
    let mut tokens = Vec::new();
    for token in &stream.tokens {
        let kind = match &token.kind {
            TokenKind::Ident(name) => TokenKind::Ident(name.clone()),
            TokenKind::Punct(ch, spacing) => TokenKind::Punct(*ch, *spacing),
            TokenKind::Literal(repr) => TokenKind::Literal(repr.clone()),
            TokenKind::Group(delimiter, inner) => TokenKind::Group(*delimiter, plain(inner)),
        };
        tokens.push(Token { kind, span: Span::call_site() });
    }
    TokenStream { tokens }
}

fn at(k: usize) -> Span {
    Span { lo: k, hi: k + 1 }
}

const END: Span = Span { lo: 900, hi: 901 };

/// Parses an attribute list and the widget after it.
fn parse_from(source: &str, names: &mut u16) -> Result<Widget, Error> {
    let tokens = lex(source);
    let mut cursor = Cursor::new(&tokens, END);
    let attrs = Attrs::parse(&mut cursor)?;
    Widget::parse(&mut cursor, attrs, None, names)
}

fn parse(source: &str) -> Result<Widget, Error> {
    let mut names = 0;
    parse_from(source, &mut names)
}

fn error(source: &str) -> Error {
    match parse(source) {
        Ok(widget) => panic!("accepted: {:?}", widget),
        Err(e) => e,
    }
}

fn properties(source: &str) -> Vec<Property> {
    let tokens = lex(source);
    let mut cursor = Cursor::new(&tokens, END);
    let mut names = 0;
    Properties::parse(&mut cursor, &mut names).properties
}

fn path_of(path: &Path) -> Vec<String> {
    path.segments.iter().map(|s| s.name.clone()).collect()
}

fn placeholder(property: &Property) -> Error {
    match &property.ty {
        PropertyType::ParseError(e) => {
            assert_eq!(property.name, PropertyName::Ident(Ident::new("invalid", e.span)));
            *e
        },
        other => panic!("no placeholder: {:?}", other),
    }
}

fn widget_of(property: &Property) -> &Widget {
    match &property.ty {
        PropertyType::Widget(widget) => widget,
        other => panic!("no widget: {:?}", other),
    }
}

fn conditional_of(property: &Property) -> &ConditionalWidget {
    match &property.ty {
        PropertyType::ConditionalWidget(widget) => widget,
        other => panic!("no conditional widget: {:?}", other),
    }
}

// ---------------------------------------------------------------------
// The cursor
// ---------------------------------------------------------------------

#[test]
fn cursor_looks_ahead_without_moving() {
    let tokens = lex("name = gtk::Box(1) { }");
    let cursor = Cursor::new(&tokens, END);
    assert!(cursor.peek_ident());
    assert!(cursor.peek_word("name"));
    assert!(!cursor.peek_word("gtk"));
    assert!(cursor.peek2_punct('='));
    assert!(!cursor.peek_punct('='));
    assert!(!cursor.peek_group(Delimiter::Brace));
    assert!(!cursor.is_empty());
    assert_eq!(cursor.span(), at(1));
    assert_eq!(cursor.pos, 0);
}

#[test]
fn cursor_parses_token_by_token() {
    let tokens = lex("name = gtk::Box(1) { x }");
    let mut cursor = Cursor::new(&tokens, END);
    assert_eq!(cursor.parse_ident(), Ok(Ident::new("name", at(1))));
    assert!(!cursor.parse_punct(':'));
    assert!(cursor.parse_punct('='));
    assert!(cursor.parse_word("gtk"));
    assert!(cursor.peek_operator(':', ':'));
    assert!(!cursor.peek_operator(':', '='));
    assert!(cursor.parse_operator(':', ':'));
    assert!(cursor.peek2_group(Delimiter::Parenthesis));
    assert!(cursor.parse_word("Box"));
    let inner = cursor.parse_group(Delimiter::Parenthesis).unwrap();
    assert_eq!(inner.tokens, &lex_with_offset("1", 8));
    assert_eq!(inner.scope, at(7));
    assert!(cursor.parse_group(Delimiter::Parenthesis).is_none());
    let mut block = cursor.parse_group(Delimiter::Brace).unwrap();
    assert!(cursor.is_empty());
    assert_eq!(cursor.span(), END);
    assert_eq!(cursor.parse_ident(), Err(Error::new(END, ErrorKind::ExpectedIdent)));
    assert_eq!(block.parse_ident(), Ok(Ident::new("x", at(10))));
    assert!(block.is_empty());
    assert_eq!(block.span(), at(9));
}

fn lex_with_offset(source: &str, first: usize) -> TokenStream {
    let mut next = first;
    convert(proc_macro2::TokenStream::from_str(source).unwrap(), &mut next, true)
}

#[test]
fn cursor_refuses_reserved_words_as_identifiers() {
    let tokens = lex("match _ self Some");
    let mut cursor = Cursor::new(&tokens, END);
    assert!(!cursor.peek_ident());
    assert!(cursor.peek_word("match"));
    assert_eq!(cursor.parse_ident(), Err(Error::new(at(1), ErrorKind::ExpectedIdent)));
    assert_eq!(cursor.parse_ident_or_word(), Some(Ident::new("match", at(1))));
    assert!(!cursor.peek_ident());
    cursor.advance(1);
    assert!(!cursor.peek_ident());
    cursor.advance(1);
    assert!(cursor.peek_ident());
}

#[test]
fn fork_leaves_the_cursor_alone() {
    let tokens = lex("a b c");
    let mut cursor = Cursor::new(&tokens, END);
    cursor.advance(1);
    let mut ahead = cursor.fork();
    assert_eq!(ahead.parse_ident(), Ok(Ident::new("b", at(2))));
    assert_eq!(ahead.parse_ident(), Ok(Ident::new("c", at(3))));
    assert!(ahead.is_empty());
    assert_eq!(cursor.pos, 1);
    assert_eq!(cursor.parse_ident(), Ok(Ident::new("b", at(2))));
    cursor.seek(0);
    assert!(cursor.peek_word("a"));
    assert!(cursor.peek2_word("b"));
}

#[test]
fn cursor_finds_what_ends_an_item() {
    let tokens = lex("a (b, c) { d, e } == f => g, h if i");
    let mut cursor = Cursor::new(&tokens, END);
    assert_eq!(cursor.find_comma(), 9);
    assert_eq!(cursor.find_brace(), 2);
    assert_eq!(cursor.find_fat_arrow(), 6);
    assert_eq!(cursor.find_if(12), 11);
    assert_eq!(cursor.find_if(5), 5);
    assert!(!cursor.peek3_assignment());
    cursor.seek(10);
    assert_eq!(cursor.find_comma(), 13);
    assert_eq!(cursor.find_brace(), 13);
    assert_eq!(cursor.find_fat_arrow(), 13);
    cursor.seek(0);
    assert_eq!(plain(&cursor.take_until(2)), lex_plain("a (b, c)"));
    assert_eq!(cursor.pos, 2);
    let assignment = lex("a: b = c");
    let mut cursor = Cursor::new(&assignment, END);
    cursor.seek(1);
    assert!(cursor.peek3_assignment());
    let comparison = lex("a: b == c");
    let mut cursor = Cursor::new(&comparison, END);
    cursor.seek(1);
    assert!(!cursor.peek3_assignment());
}

// ---------------------------------------------------------------------
// Attributes
// ---------------------------------------------------------------------

fn attrs(source: &str) -> Result<Option<Attrs>, Error> {
    let tokens = lex(source);
    let mut cursor = Cursor::new(&tokens, END);
    Attrs::parse(&mut cursor)
}

#[test]
fn no_attribute_list() {
    assert_eq!(attrs("gtk::Box {}"), Ok(None));
    assert_eq!(attrs(""), Ok(None));
}

#[test]
fn attributes_are_read_in_order() {
    let list = attrs("#[local] #[local_ref] #[root] #[watch] #[track(a.b())] #[name(x)] w").unwrap();
    let list = list.unwrap().inner;
    assert_eq!(list.len(), 6);
    assert_eq!(list[0], Attr::Local(Ident::new("local", at(3))));
    assert_eq!(list[1], Attr::LocalRef(Ident::new("local_ref", at(6))));
    assert_eq!(list[2], Attr::Root(Ident::new("root", at(9))));
    assert_eq!(list[3], Attr::Watch(Ident::new("watch", at(12))));
    match &list[4] {
        Attr::Track(kw, guard) => {
            assert_eq!(kw, &Ident::new("track", at(15)));
            assert_eq!(plain(guard), lex_plain("a.b()"));
        },
        other => panic!("{:?}", other),
    }
    assert_eq!(list[5], Attr::Name(Ident::new("name", at(23)), Ident::new("x", at(25))));
    assert_eq!(list[5].span(), at(23));
}

#[test]
fn doc_comments_are_attributes() {
    let list = attrs("/// The main box.\n gtk::Box {}").unwrap().unwrap().inner;
    assert_eq!(list.len(), 1);
    match &list[0] {
        Attr::Doc(tokens) => {
            assert_eq!(plain(tokens), lex_plain("#[doc = \" The main box.\"]"));
            assert_eq!(list[0].span(), at(1));
        },
        other => panic!("{:?}", other),
    }
}

#[test]
fn malformed_attributes() {
    assert_eq!(attrs("# local"), Err(Error::new(at(2), ErrorKind::ExpectedAttribute)));
    assert_eq!(attrs("#"), Err(Error::new(END, ErrorKind::ExpectedAttribute)));
    assert_eq!(attrs("#[]"), Err(Error::new(at(2), ErrorKind::ExpectedIdent)));
    assert_eq!(attrs("#[3]"), Err(Error::new(at(3), ErrorKind::ExpectedIdent)));
    assert_eq!(attrs("#[local x]"), Err(Error::new(at(4), ErrorKind::UnexpectedToken)));
    assert_eq!(attrs("#[track]"), Err(Error::new(at(2), ErrorKind::ExpectedParentheses)));
    assert_eq!(attrs("#[track(a) b]"), Err(Error::new(at(6), ErrorKind::UnexpectedToken)));
    assert_eq!(attrs("#[name = x]"), Err(Error::new(at(4), ErrorKind::ExpectedParentheses)));
    assert_eq!(attrs("#[name()]"), Err(Error::new(at(4), ErrorKind::ExpectedIdent)));
    assert_eq!(attrs("#[name(a b)]"), Err(Error::new(at(6), ErrorKind::UnexpectedToken)));
    assert_eq!(attrs("#[name(a)c]"), Err(Error::new(at(6), ErrorKind::UnexpectedToken)));
    assert_eq!(attrs("#[inline]"), Err(Error::new(at(3), ErrorKind::UnknownAttribute)));
    assert_eq!(attrs("#[local] #[inline]"), Err(Error::new(at(6), ErrorKind::UnknownAttribute)));
}

#[test]
fn widget_without_attributes_is_plain() {
    let attrs = Widget::process_attributes(None).unwrap();
    assert_eq!(attrs.attr, WidgetAttr::Plain);
    assert_eq!(attrs.doc_attr, None);
    assert_eq!(attrs.name, None);
    let attrs = Widget::process_attributes(Some(Attrs { inner: vec![] })).unwrap();
    assert_eq!(attrs.attr, WidgetAttr::Plain);
    assert!(!attrs.attr.is_local_attr());
}

#[test]
fn one_local_marker_is_accepted() {
    let read = Widget::process_attributes(attrs("#[local]").unwrap()).unwrap();
    assert_eq!(read.attr, WidgetAttr::Local);
    assert!(read.attr.is_local_attr());
    let read = Widget::process_attributes(attrs("#[local_ref]").unwrap()).unwrap();
    assert_eq!(read.attr, WidgetAttr::LocalRef);
    assert!(read.attr.is_local_attr());
    let read =
        Widget::process_attributes(attrs("/// a\n #[local_ref] #[name(x)]").unwrap()).unwrap();
    assert_eq!(read.attr, WidgetAttr::LocalRef);
    assert_eq!(read.name, Some(Ident::new("x", at(13))));
}

#[test]
fn two_local_markers_are_refused() {
    let e = Widget::process_attributes(attrs("#[local] #[local_ref]").unwrap()).err().unwrap();
    assert_eq!(e, Error::new(at(6), ErrorKind::AttributeTwice));
    let e = Widget::process_attributes(attrs("#[local_ref] #[local]").unwrap()).err().unwrap();
    assert_eq!(e, Error::new(at(6), ErrorKind::AttributeTwice));
    let e = Widget::process_attributes(attrs("#[local] #[local]").unwrap()).err().unwrap();
    assert_eq!(e, Error::new(at(6), ErrorKind::AttributeTwice));
    let e = Widget::process_attributes(attrs("#[local_ref] /// doc\n #[name(a)] #[local_ref]").unwrap())
        .err()
        .unwrap();
    assert_eq!(e.kind, ErrorKind::AttributeTwice);
    assert_eq!(e.message(), "Cannot use the same attribute twice.");
    assert_eq!(error("#[local] #[local_ref] window {}").kind, ErrorKind::AttributeTwice);
}

#[test]
fn a_name_is_given_once_by_attribute() {
    let e = Widget::process_attributes(attrs("#[name(a)] #[name(b)]").unwrap()).err().unwrap();
    assert_eq!(e, Error::new(at(8), ErrorKind::AttributeTwice));
}

#[test]
fn widgets_have_no_other_attributes() {
    let e = Widget::process_attributes(attrs("#[watch]").unwrap()).err().unwrap();
    assert_eq!(e, Error::new(at(3), ErrorKind::InvalidWidgetAttribute));
    let e = Widget::process_attributes(attrs("#[local] #[track(a)]").unwrap()).err().unwrap();
    assert_eq!(e, Error::new(at(6), ErrorKind::InvalidWidgetAttribute));
    let e = Widget::process_attributes(attrs("#[root]").unwrap()).err().unwrap();
    assert_eq!(e, Error::new(at(3), ErrorKind::InvalidWidgetAttribute));
    // The first fault is reported.
    let e = Widget::process_attributes(attrs("#[local] #[watch] #[local]").unwrap()).err().unwrap();
    assert_eq!(e, Error::new(at(6), ErrorKind::InvalidWidgetAttribute));
}

#[test]
fn doc_comments_add_up() {
    let read = Widget::process_attributes(attrs("/// one\n #[local] /// two\n x").unwrap()).unwrap();
    assert_eq!(
        plain(&read.doc_attr.unwrap()),
        lex_plain("#[doc = \" one\"] #[doc = \" two\"]")
    );
}

#[test]
fn assignments_are_watched_or_tracked() {
    assert_eq!(process_assign_attributes(None), Ok(AssignPropertyAttr::Plain));
    assert_eq!(process_assign_attributes(attrs("#[watch]").unwrap()), Ok(AssignPropertyAttr::Watch));
    match process_assign_attributes(attrs("#[track(model.changed())]").unwrap()).unwrap() {
        AssignPropertyAttr::Track(guard, paste_model) => {
            assert_eq!(plain(&guard), lex_plain("model.changed()"));
            assert!(!paste_model);
        },
        other => panic!("{:?}", other),
    }
    match process_assign_attributes(attrs("#[track(.changed())]").unwrap()).unwrap() {
        AssignPropertyAttr::Track(guard, paste_model) => {
            assert_eq!(plain(&guard), lex_plain(".changed()"));
            assert!(paste_model);
        },
        other => panic!("{:?}", other),
    }
    match process_assign_attributes(attrs("#[track()]").unwrap()).unwrap() {
        AssignPropertyAttr::Track(guard, paste_model) => {
            assert!(guard.is_empty());
            assert!(!paste_model);
        },
        other => panic!("{:?}", other),
    }
    assert_eq!(
        process_assign_attributes(attrs("#[watch] #[track(a)]").unwrap()),
        Err(Error::new(at(6), ErrorKind::AttributeTwice))
    );
    assert_eq!(
        process_assign_attributes(attrs("#[watch] #[watch]").unwrap()),
        Err(Error::new(at(6), ErrorKind::AttributeTwice))
    );
    assert_eq!(
        process_assign_attributes(attrs("#[local]").unwrap()),
        Err(Error::new(at(3), ErrorKind::InvalidPropertyAttribute))
    );
}

#[test]
fn conditional_widgets_can_be_named() {
    assert_eq!(process_conditional_attributes(None), Ok(None));
    assert_eq!(
        process_conditional_attributes(attrs("/// doc\n #[name(stack)]").unwrap()),
        Ok(Some(Ident::new("stack", at(10))))
    );
    assert_eq!(
        process_conditional_attributes(attrs("#[name(a)] #[name(b)]").unwrap()),
        Err(Error::new(at(8), ErrorKind::AttributeTwice))
    );
    assert_eq!(
        process_conditional_attributes(attrs("#[local]").unwrap()),
        Err(Error::new(at(3), ErrorKind::InvalidWidgetAttribute))
    );
}

// ---------------------------------------------------------------------
// Paths, constructors and names
// ---------------------------------------------------------------------

fn func(source: &str) -> Result<WidgetFunc, Error> {
    let tokens = lex(source);
    let mut cursor = Cursor::new(&tokens, END);
    WidgetFunc::parse(&mut cursor)
}

#[test]
fn paths() {
    let tokens = lex("gtk::prelude::Box rest");
    let mut cursor = Cursor::new(&tokens, END);
    let path = Path::parse(&mut cursor).unwrap();
    assert!(!path.leading_colon);
    assert_eq!(path_of(&path), vec!["gtk", "prelude", "Box"]);
    assert_eq!(path.span(), at(1));
    assert_eq!(path.get_ident(), None);
    assert_eq!(cursor.pos, 7);

    let path = func("::gtk::Box").unwrap().path;
    assert!(path.leading_colon);
    assert_eq!(path_of(&path), vec!["gtk", "Box"]);
    assert_eq!(path.get_ident(), None);

    let path = func("window").unwrap().path;
    assert_eq!(path.get_ident(), Some(&Ident::new("window", at(1))));

    let path = func("::window").unwrap().path;
    assert_eq!(path.get_ident(), None);

    let path = func("crate::widgets::Row").unwrap().path;
    assert_eq!(path_of(&path), vec!["crate", "widgets", "Row"]);
    let path = func("self::Row").unwrap().path;
    assert_eq!(path_of(&path), vec!["self", "Row"]);
    let path = func("super::Self").unwrap().path;
    assert_eq!(path_of(&path), vec!["super", "Self"]);
}

#[test]
fn malformed_paths() {
    assert_eq!(func(""), Err(Error::new(END, ErrorKind::ExpectedIdent)));
    assert_eq!(func("3"), Err(Error::new(at(1), ErrorKind::ExpectedIdent)));
    assert_eq!(func("match"), Err(Error::new(at(1), ErrorKind::ExpectedIdent)));
    assert_eq!(func("gtk::"), Err(Error::new(END, ErrorKind::ExpectedIdent)));
    assert_eq!(func("gtk::{}"), Err(Error::new(at(4), ErrorKind::ExpectedIdent)));
    assert_eq!(func("gtk::mut"), Err(Error::new(at(4), ErrorKind::ExpectedIdent)));
    assert_eq!(func(":: ::gtk"), Err(Error::new(at(3), ErrorKind::ExpectedIdent)));
}

#[test]
fn constructors_can_have_arguments() {
    let f = func("gtk::Box::new(Orientation::Vertical, 5) {}").unwrap();
    assert_eq!(path_of(&f.path), vec!["gtk", "Box", "new"]);
    assert_eq!(plain(&f.args.unwrap()), lex_plain("Orientation::Vertical, 5"));
    let f = func("gtk::Box {}").unwrap();
    assert_eq!(f.args, None);
    let f = func("gtk::Box () {}").unwrap();
    assert_eq!(f.args, Some(TokenStream::new()));
}

#[test]
fn derived_names_are_lower_case_and_numbered() {
    let f = func("gtk::Box").unwrap();
    let mut names = 0;
    assert_eq!(f.snake_case_name(&mut names), Ident::new("_gtk_box_0", at(1)));
    assert_eq!(names, 1);
    assert_eq!(f.snake_case_name(&mut names), Ident::new("_gtk_box_1", at(1)));
    assert_eq!(names, 2);
    let f = func("HeaderBar").unwrap();
    let mut names = 41;
    assert_eq!(f.snake_case_name(&mut names).name, "_headerbar_41");
    let f = func("::adw::ÉCRAN::ViewStack").unwrap();
    let mut names = 7;
    assert_eq!(f.snake_case_name(&mut names).name, "_adw_écran_viewstack_7");
}

#[test]
fn derived_names_are_put_together_with_underscores() {
    let parts = vec!["gtk".to_string(), "box".to_string()];
    assert_eq!(join_snake_case(&parts, "3"), "_gtk_box_3");
    assert_eq!(join_snake_case(&vec!["a".to_string()], "10"), "_a_10");
    assert_eq!(join_snake_case(&Vec::new(), "0"), "_0");
}

#[test]
fn the_number_of_names_wraps_around() {
    let mut names = 65534;
    assert_eq!(take_name(&mut names), "65534");
    assert_eq!(names, 65535);
    assert_eq!(take_name(&mut names), "65535");
    assert_eq!(names, 0);
    assert_eq!(numbered_name("_w_", &mut names, at(3)), Ident::new("_w_0", at(3)));
    assert_eq!(names, 1);
}

#[test]
fn name_of_a_local_variable() {
    let f = func("window").unwrap();
    assert_eq!(Widget::local_attr_name(&f), Ok(Ident::new("window", at(1))));
    let f = func("gtk::Window").unwrap();
    assert_eq!(
        Widget::local_attr_name(&f),
        Err(Error::new(at(1), ErrorKind::ExpectedLocalIdent))
    );
    let f = func("::window").unwrap();
    assert_eq!(
        Widget::local_attr_name(&f),
        Err(Error::new(at(3), ErrorKind::ExpectedLocalIdent))
    );
}

// ---------------------------------------------------------------------
// Widgets
// ---------------------------------------------------------------------

#[test]
fn a_plain_widget() {
    let mut names = 4;
    let widget = parse_from("gtk::Box { }", &mut names).unwrap();
    assert_eq!(widget.name, Ident::new("_gtk_box_4", at(1)));
    assert_eq!(names, 5);
    assert_eq!(widget.attr, WidgetAttr::Plain);
    assert_eq!(widget.doc_attr, None);
    assert!(!widget.mutable);
    assert_eq!(path_of(&widget.func.path), vec!["gtk", "Box"]);
    assert_eq!(widget.func.args, None);
    assert_eq!(widget.args, None);
    assert!(widget.properties.properties.is_empty());
    assert_eq!(widget.wrapper, None);
    assert!(!widget.ref_token);
    assert!(!widget.deref_token);
    assert_eq!(widget.returned_widget, None);
}

#[test]
fn markers_before_the_constructor() {
    let widget = parse("mut vbox = &*gtk::Box::new(1) { }").unwrap();
    assert!(widget.mutable);
    assert!(widget.ref_token);
    assert!(widget.deref_token);
    assert_eq!(widget.name, Ident::new("vbox", at(2)));
    assert_eq!(plain(&widget.func.args.unwrap()), lex_plain("1"));
    let widget = parse("*gtk::Box { }").unwrap();
    assert!(!widget.ref_token);
    assert!(widget.deref_token);
    // The markers stand in this order.
    assert_eq!(error("*&gtk::Box { }"), Error::new(at(2), ErrorKind::ExpectedIdent));
}

#[test]
fn arguments_read_before_the_widget_are_kept() {
    let tokens = lex("gtk::Box { }");
    let mut cursor = Cursor::new(&tokens, END);
    let mut names = 0;
    let widget = Widget::parse(&mut cursor, None, Some(lex_plain("0, 1")), &mut names).unwrap();
    assert_eq!(widget.args, Some(lex_plain("0, 1")));
    assert!(cursor.is_empty());
}

#[test]
fn name_by_assignment() {
    let mut names = 0;
    let widget = parse_from("main_box = gtk::Box { }", &mut names).unwrap();
    assert_eq!(widget.name, Ident::new("main_box", at(1)));
    assert_eq!(names, 0);
}

#[test]
fn name_by_attribute() {
    let mut names = 0;
    let widget = parse_from("#[name(main_box)] gtk::Box { }", &mut names).unwrap();
    assert_eq!(widget.name, Ident::new("main_box", at(5)));
    assert_eq!(names, 0);
}

#[test]
fn name_by_default() {
    let mut names = 0;
    let widget = parse_from("/// The box.\n gtk::Box { }", &mut names).unwrap();
    assert_eq!(widget.name.name, "_gtk_box_0");
    assert_eq!(names, 1);
    assert_eq!(plain(&widget.doc_attr.unwrap()), lex_plain("#[doc = \" The box.\"]"));
}

#[test]
fn name_by_attribute_and_assignment_is_refused() {
    let e = error("#[name(a)] b = gtk::Box { }");
    assert_eq!(e, Error::new(at(6), ErrorKind::NameSpecifiedTwice));
    assert_eq!(
        e.message(),
        "Widget name is specified more than once (attribute, assignment or local attribute)."
    );
}

#[test]
fn name_by_attribute_and_local_is_refused() {
    assert_eq!(
        error("#[local] #[name(a)] window { }"),
        Error::new(END, ErrorKind::NameSpecifiedTwice)
    );
    assert_eq!(
        error("#[name(a)] #[local_ref] window { } -> { }"),
        Error::new(at(11), ErrorKind::NameSpecifiedTwice)
    );
}

#[test]
fn renaming_a_local_variable_is_refused() {
    let e = error("#[local] b = window { }");
    assert_eq!(e, Error::new(at(4), ErrorKind::RenamedLocal));
    let e = error("#[local_ref] mut b = window { }");
    assert_eq!(e, Error::new(at(5), ErrorKind::RenamedLocal));
    let e = error("#[local] #[name(a)] b = window { }");
    assert_eq!(e.kind, ErrorKind::RenamedLocal);
}

#[test]
fn the_new_name_is_an_identifier() {
    assert_eq!(error("3 = gtk::Box { }"), Error::new(at(1), ErrorKind::ExpectedIdent));
    assert_eq!(error("match = gtk::Box { }"), Error::new(at(1), ErrorKind::ExpectedIdent));
}

#[test]
fn local_widget_with_compound_path_is_refused() {
    let e = error("#[local] gtk::Window { }");
    assert_eq!(e, Error::new(at(4), ErrorKind::ExpectedLocalIdent));
    assert_eq!(e.message(), "Expected identifier due to the `local` or `local_ref` attribute.");
    assert_eq!(
        error("#[local_ref] a::b::c { }"),
        Error::new(at(4), ErrorKind::ExpectedLocalIdent)
    );
}

#[test]
fn local_widget_is_named_after_its_variable() {
    let mut names = 0;
    let widget = parse_from("#[local] window { }", &mut names).unwrap();
    assert_eq!(widget.name, Ident::new("window", at(4)));
    assert_eq!(widget.attr, WidgetAttr::Local);
    assert_eq!(path_of(&widget.func.path), vec!["window"]);
    assert_eq!(names, 0);
    let widget = parse("#[local_ref] window { }").unwrap();
    assert_eq!(widget.name.name, "window");
    assert_eq!(widget.attr, WidgetAttr::LocalRef);
}

#[test]
fn wrapped_constructor() {
    let widget = parse("Some(&gtk::Label::new(None)) { }").unwrap();
    assert_eq!(widget.wrapper, Some(Ident::new("Some", at(1))));
    assert!(widget.ref_token);
    assert_eq!(path_of(&widget.func.path), vec!["gtk", "Label", "new"]);
    assert_eq!(plain(&widget.func.args.unwrap()), lex_plain("None"));
    assert_eq!(widget.name.name, "_gtk_label_new_0");
}

#[test]
fn some_without_parentheses_is_a_constructor() {
    let widget = parse("Some { }").unwrap();
    assert_eq!(widget.wrapper, None);
    assert_eq!(path_of(&widget.func.path), vec!["Some"]);
    assert_eq!(widget.name.name, "_some_0");
    let widget = parse("Some::new(1) { }").unwrap();
    assert_eq!(widget.wrapper, None);
    assert_eq!(path_of(&widget.func.path), vec!["Some", "new"]);
    let widget = parse("other(gtk::Label) { }").unwrap();
    assert_eq!(widget.wrapper, None);
    assert_eq!(path_of(&widget.func.path), vec!["other"]);
    assert_eq!(plain(&widget.func.args.unwrap()), lex_plain("gtk::Label"));
}

#[test]
fn wrapper_holds_one_constructor() {
    assert_eq!(error("Some(gtk::Label, 1) { }"), Error::new(at(7), ErrorKind::UnexpectedToken));
    assert_eq!(error("Some() { }"), Error::new(at(2), ErrorKind::ExpectedIdent));
    assert_eq!(error("Some(gtk::Label)"), Error::new(END, ErrorKind::ExpectedBraces));
}

#[test]
fn the_property_block_is_required() {
    assert_eq!(error("gtk::Box"), Error::new(END, ErrorKind::ExpectedBraces));
    assert_eq!(error("gtk::Box, x"), Error::new(at(5), ErrorKind::ExpectedBraces));
    assert_eq!(error("gtk::Box [ ]"), Error::new(at(5), ErrorKind::ExpectedBraces));
    assert_eq!(error("x = "), Error::new(END, ErrorKind::ExpectedIdent));
}

#[test]
fn parse_widget_func_reads_up_to_the_block() {
    let tokens = lex("Some(*gtk::Box) { set_a: 1 } rest");
    let mut cursor = Cursor::new(&tokens, END);
    let mut names = 0;
    let info = Widget::parse_widget_func(&mut cursor, &mut names).unwrap();
    assert_eq!(info.wrapper, Some(Ident::new("Some", at(1))));
    assert!(!info.ref_token);
    assert!(info.deref_token);
    assert_eq!(path_of(&info.func.path), vec!["gtk", "Box"]);
    assert_eq!(info.properties.properties.len(), 1);
    assert_eq!(cursor.pos, 3);
    assert!(cursor.peek_word("rest"));
}

#[test]
fn returned_widget() {
    let mut names = 0;
    let widget = parse_from("gtk::Stack { } -> page { set_title: \"a\" }", &mut names).unwrap();
    assert_eq!(names, 1);
    let returned = widget.returned_widget.unwrap();
    assert_eq!(returned.name, Ident::new("page", at(8)));
    assert_eq!(returned.properties.properties.len(), 1);

    let mut names = 0;
    let widget = parse_from("gtk::Stack { } -> { }", &mut names).unwrap();
    assert_eq!(widget.name.name, "_gtk_stack_0");
    let returned = widget.returned_widget.unwrap();
    assert_eq!(returned.name, Ident::new("_returned_widget_1", at(8)));
    assert_eq!(names, 2);

    assert_eq!(error("gtk::Stack { } -> page"), Error::new(END, ErrorKind::ExpectedBraces));
    assert_eq!(error("gtk::Stack { } -> 3 { }"), Error::new(at(8), ErrorKind::ExpectedBraces));

    let tokens = lex("page { } rest");
    let mut cursor = Cursor::new(&tokens, END);
    let mut names = 0;
    let returned = ReturnedWidget::parse(&mut cursor, &mut names).unwrap();
    assert_eq!(returned.name.name, "page");
    assert_eq!(cursor.pos, 2);
}

#[test]
fn widget_added_to_its_container() {
    let tokens = lex("{ set_label: \"a\" } , next");
    let mut cursor = Cursor::new(&tokens, END);
    let mut names = 2;
    let f = func("gtk::Label").unwrap();
    let widget = Widget::parse_for_container_ext(&mut cursor, f, None, &mut names).unwrap();
    assert_eq!(widget.name.name, "_gtk_label_2");
    assert_eq!(names, 3);
    assert!(widget.ref_token);
    assert!(!widget.deref_token);
    assert!(!widget.mutable);
    assert_eq!(widget.wrapper, None);
    assert_eq!(widget.args, None);
    assert_eq!(widget.returned_widget, None);
    assert_eq!(widget.properties.properties.len(), 1);
    assert_eq!(cursor.pos, 1);
}

#[test]
fn widget_added_to_its_container_without_properties() {
    let tokens = lex(", next");
    let mut cursor = Cursor::new(&tokens, END);
    let mut names = 0;
    let f = func("gtk::Label").unwrap();
    let widget = Widget::parse_for_container_ext(
        &mut cursor,
        f,
        attrs("#[name(label)]").unwrap(),
        &mut names,
    )
    .unwrap();
    assert_eq!(widget.name.name, "label");
    assert!(widget.properties.properties.is_empty());
    assert_eq!(cursor.pos, 0);
    assert_eq!(names, 0);
}

#[test]
fn widget_added_to_its_container_is_checked() {
    let tokens = lex("next");
    let mut names = 0;
    let e = Widget::parse_for_container_ext(
        &mut Cursor::new(&tokens, END),
        func("gtk::Label").unwrap(),
        None,
        &mut names,
    );
    assert_eq!(e, Err(Error::new(at(1), ErrorKind::ExpectedBraces)));
    let tokens = lex("{ }");
    let e = Widget::parse_for_container_ext(
        &mut Cursor::new(&tokens, END),
        func("label").unwrap(),
        attrs("#[local] #[name(a)]").unwrap(),
        &mut names,
    );
    assert_eq!(e, Err(Error::new(at(8), ErrorKind::NameSpecifiedTwice)));
    let e = Widget::parse_for_container_ext(
        &mut Cursor::new(&tokens, END),
        func("gtk::Label").unwrap(),
        attrs("#[local]").unwrap(),
        &mut names,
    );
    assert_eq!(e, Err(Error::new(at(1), ErrorKind::ExpectedLocalIdent)));
    let e = Widget::parse_for_container_ext(
        &mut Cursor::new(&tokens, END),
        func("gtk::Label").unwrap(),
        attrs("#[watch]").unwrap(),
        &mut names,
    );
    assert_eq!(e, Err(Error::new(at(3), ErrorKind::InvalidWidgetAttribute)));
    let widget = Widget::parse_for_container_ext(
        &mut Cursor::new(&tokens, END),
        func("label").unwrap(),
        attrs("#[local]").unwrap(),
        &mut names,
    )
    .unwrap();
    assert_eq!(widget.name.name, "label");
    assert_eq!(widget.attr, WidgetAttr::Local);
}

// ---------------------------------------------------------------------
// Properties
// ---------------------------------------------------------------------

#[test]
fn empty_block() {
    assert!(properties("").is_empty());
}

#[test]
fn assignments() {
    let list = properties(
        "set_title: Some(\"Title\"), #[watch] set_label: &format!(\"{}\", model.n), \
         #[track(model.changed())] gtk::prelude::set_width: 3,",
    );
    assert_eq!(list.len(), 3);
    assert_eq!(list[0].name, PropertyName::Ident(Ident::new("set_title", at(1))));
    match &list[0].ty {
        PropertyType::Assign(assign) => {
            assert_eq!(assign.attr, AssignPropertyAttr::Plain);
            assert_eq!(plain(&assign.expr), lex_plain("Some(\"Title\")"));
        },
        other => panic!("{:?}", other),
    }
    match &list[1].ty {
        PropertyType::Assign(assign) => {
            assert_eq!(assign.attr, AssignPropertyAttr::Watch);
            assert_eq!(plain(&assign.expr), lex_plain("&format!(\"{}\", model.n)"));
        },
        other => panic!("{:?}", other),
    }
    match &list[2].name {
        PropertyName::Path(path) => assert_eq!(path_of(path), vec!["gtk", "prelude", "set_width"]),
        other => panic!("{:?}", other),
    }
    assert_eq!(list[2].name.span(), at(30));
    match &list[2].ty {
        PropertyType::Assign(assign) => match &assign.attr {
            AssignPropertyAttr::Track(guard, paste_model) => {
                assert_eq!(plain(guard), lex_plain("model.changed()"));
                assert!(!paste_model);
            },
            other => panic!("{:?}", other),
        },
        other => panic!("{:?}", other),
    }
}

#[test]
fn signal_handlers() {
    let list = properties("connect_clicked => move |_| { send(1) }, set_a: 1");
    assert_eq!(list.len(), 2);
    match &list[0].ty {
        PropertyType::SignalHandler(handler) => {
            assert_eq!(plain(&handler.handler), lex_plain("move |_| { send(1) }"));
        },
        other => panic!("{:?}", other),
    }
}

#[test]
fn nested_widgets() {
    let list = properties(
        "set_child = gtk::Label { set_label: \"a\" }, \
         set_end: end = &gtk::Button { }, \
         gtk::Entry { }, \
         gtk::Separator, \
         set_start = Some(gtk::Image) { } -> { }",
    );
    assert_eq!(list.len(), 5);
    assert_eq!(list[0].name, PropertyName::Ident(Ident::new("set_child", at(1))));
    assert_eq!(widget_of(&list[0]).name.name, "_gtk_label_0");
    assert_eq!(widget_of(&list[0]).properties.properties.len(), 1);
    assert!(!widget_of(&list[0]).ref_token);
    assert_eq!(widget_of(&list[1]).name.name, "end");
    assert!(widget_of(&list[1]).ref_token);
    assert_eq!(list[2].name, PropertyName::RelmContainerExtAssign);
    assert_eq!(widget_of(&list[2]).name.name, "_gtk_entry_1");
    assert!(widget_of(&list[2]).ref_token);
    assert_eq!(list[3].name, PropertyName::RelmContainerExtAssign);
    assert_eq!(widget_of(&list[3]).name.name, "_gtk_separator_2");
    assert!(widget_of(&list[3]).properties.properties.is_empty());
    assert_eq!(widget_of(&list[4]).wrapper.as_ref().unwrap().name, "Some");
    assert_eq!(widget_of(&list[4]).name.name, "_gtk_image_3");
    assert_eq!(
        widget_of(&list[4]).returned_widget.as_ref().unwrap().name.name,
        "_returned_widget_4"
    );
}

#[test]
fn names_are_numbered_inside_out() {
    let widget = parse("gtk::Box { gtk::Label { }, gtk::Button { gtk::Image { } } }").unwrap();
    assert_eq!(widget.name.name, "_gtk_box_3");
    let children = &widget.properties.properties;
    assert_eq!(widget_of(&children[0]).name.name, "_gtk_label_0");
    assert_eq!(widget_of(&children[1]).name.name, "_gtk_button_2");
    let image = &widget_of(&children[1]).properties.properties[0];
    assert_eq!(widget_of(image).name.name, "_gtk_image_1");
}

#[test]
fn a_malformed_property_does_not_stop_the_others() {
    let list = properties("set_a: 1, 3 + 4, set_b: 2, set_c 5, set_d: , set_e: 6");
    assert_eq!(list.len(), 6);
    assert!(matches!(list[0].ty, PropertyType::Assign(_)));
    assert_eq!(placeholder(&list[1]), Error::new(at(5), ErrorKind::ExpectedIdent));
    assert!(matches!(list[2].ty, PropertyType::Assign(_)));
    assert_eq!(placeholder(&list[3]), Error::new(at(14), ErrorKind::UnexpectedToken));
    assert_eq!(placeholder(&list[4]), Error::new(at(18), ErrorKind::UnexpectedToken));
    assert_eq!(list[5].name, PropertyName::Ident(Ident::new("set_e", at(19))));
}

#[test]
fn what_is_left_of_a_property_is_reported() {
    let list = properties("set_child = gtk::Label { } extra, set_a: 1");
    assert_eq!(list.len(), 2);
    assert_eq!(placeholder(&list[0]), Error::new(at(8), ErrorKind::UnexpectedToken));
    assert!(matches!(list[1].ty, PropertyType::Assign(_)));
}

#[test]
fn a_refused_property_uses_up_no_name() {
    let list = properties("gtk::Box { gtk::Label { } } extra, gtk::Button { }");
    assert_eq!(list.len(), 2);
    assert_eq!(placeholder(&list[0]).kind, ErrorKind::UnexpectedToken);
    assert_eq!(widget_of(&list[1]).name.name, "_gtk_button_0");
}

#[test]
fn empty_properties_are_reported() {
    let list = properties("set_a: 1,, set_b: 2,");
    assert_eq!(list.len(), 3);
    assert_eq!(placeholder(&list[1]), Error::new(at(5), ErrorKind::ExpectedIdent));
    let list = properties(",");
    assert_eq!(list.len(), 1);
    assert_eq!(placeholder(&list[0]), Error::new(at(1), ErrorKind::ExpectedIdent));
}

#[test]
fn properties_are_checked() {
    let list = properties(
        "set_a(1): 2, #[local] set_b: 3, #[inline] set_c: 4, set_d => , #[watch] gtk::Box { }, \
         set_e = , #[name(a)] b = c = gtk::Box { }",
    );
    assert_eq!(list.len(), 7);
    assert_eq!(placeholder(&list[0]), Error::new(at(1), ErrorKind::UnexpectedArguments));
    assert_eq!(placeholder(&list[1]), Error::new(at(9), ErrorKind::InvalidPropertyAttribute));
    assert_eq!(placeholder(&list[2]), Error::new(at(16), ErrorKind::UnknownAttribute));
    assert_eq!(placeholder(&list[3]).kind, ErrorKind::UnexpectedToken);
    assert_eq!(placeholder(&list[4]).kind, ErrorKind::InvalidWidgetAttribute);
    assert_eq!(placeholder(&list[5]).kind, ErrorKind::ExpectedIdent);
    assert_eq!(placeholder(&list[6]).kind, ErrorKind::NameSpecifiedTwice);
    for property in &list {
        assert!(!placeholder(property).message().is_empty());
    }
}

#[test]
fn property_after_property() {
    let tokens = lex("set_a: 1, set_b: 2");
    let mut cursor = Cursor::new(&tokens, END);
    let mut names = 0;
    let first = Property::parse(&mut cursor, &mut names).unwrap();
    assert_eq!(first.name, PropertyName::Ident(Ident::new("set_a", at(1))));
    assert_eq!(cursor.pos, 3);
    assert!(cursor.parse_punct(','));
    let second = Property::parse(&mut cursor, &mut names).unwrap();
    assert_eq!(second.name, PropertyName::Ident(Ident::new("set_b", at(5))));
    assert!(cursor.is_empty());
    assert_eq!(
        Property::parse(&mut cursor, &mut names),
        Err(Error::new(END, ErrorKind::ExpectedIdent))
    );
}

// ---------------------------------------------------------------------
// Conditional widgets
// ---------------------------------------------------------------------

#[test]
fn if_chain() {
    let list = properties(
        "set_child = if model.n > 2 { gtk::Label { } } else if model.n == 1 { a = gtk::Button { } } \
         else { gtk::Image { } }, set_a: 1",
    );
    assert_eq!(list.len(), 2);
    let cond = conditional_of(&list[0]);
    assert_eq!(list[0].name, PropertyName::Ident(Ident::new("set_child", at(1))));
    assert_eq!(cond.name, Ident::new("_conditional_widget_0", at(3)));
    match &cond.branches {
        ConditionalBranches::If(branches) => {
            assert_eq!(branches.len(), 3);
            match &branches[0].cond {
                IfCondition::If(c) => assert_eq!(plain(c), lex_plain("model.n > 2")),
                other => panic!("{:?}", other),
            }
            assert_eq!(branches[0].widget.name.name, "_gtk_label_1");
            match &branches[1].cond {
                IfCondition::ElseIf(c) => assert_eq!(plain(c), lex_plain("model.n == 1")),
                other => panic!("{:?}", other),
            }
            assert_eq!(branches[1].widget.name.name, "a");
            assert_eq!(branches[2].cond, IfCondition::Else);
            assert_eq!(branches[2].widget.name.name, "_gtk_image_2");
        },
        other => panic!("{:?}", other),
    }
}

#[test]
fn if_without_else() {
    let list = properties("#[name(stack)] if a { gtk::Label { } }");
    assert_eq!(list.len(), 1);
    assert_eq!(list[0].name, PropertyName::RelmContainerExtAssign);
    let cond = conditional_of(&list[0]);
    assert_eq!(cond.name.name, "stack");
    match &cond.branches {
        ConditionalBranches::If(branches) => assert_eq!(branches.len(), 1),
        other => panic!("{:?}", other),
    }
}

#[test]
fn match_arms() {
    let list = properties(
        "set_child = match model.mode { Mode::A => gtk::Label { }, Mode::B(n) if n > 1 => \
         #[name(b)] gtk::Button { }, _ => gtk::Image { }, }",
    );
    assert_eq!(list.len(), 1);
    let cond = conditional_of(&list[0]);
    match &cond.branches {
        ConditionalBranches::Match(expr, arms) => {
            assert_eq!(plain(expr), lex_plain("model.mode"));
            assert_eq!(arms.len(), 3);
            assert_eq!(plain(&arms[0].pattern), lex_plain("Mode::A"));
            assert_eq!(arms[0].guard, None);
            assert_eq!(arms[0].widget.name.name, "_gtk_label_1");
            assert_eq!(plain(&arms[1].pattern), lex_plain("Mode::B(n)"));
            assert_eq!(plain(arms[1].guard.as_ref().unwrap()), lex_plain("n > 1"));
            assert_eq!(arms[1].widget.name.name, "b");
            assert_eq!(plain(&arms[2].pattern), lex_plain("_"));
            assert_eq!(arms[2].widget.name.name, "_gtk_image_2");
        },
        other => panic!("{:?}", other),
    }
}

fn conditional(source: &str) -> Result<ConditionalWidget, Error> {
    let tokens = lex(source);
    let mut cursor = Cursor::new(&tokens, END);
    let mut names = 0;
    ConditionalWidget::parse(&mut cursor, None, &mut names)
}

#[test]
fn conditional_widget_leaves_the_rest() {
    let tokens = lex("if a { gtk::Label { } } rest");
    let mut cursor = Cursor::new(&tokens, END);
    let mut names = 0;
    let cond = ConditionalWidget::parse(&mut cursor, None, &mut names).unwrap();
    assert_eq!(cond.name.name, "_conditional_widget_0");
    assert_eq!(cursor.pos, 3);
    assert_eq!(names, 2);
    let tokens = lex("match a { _ => gtk::Label { } } rest");
    let mut cursor = Cursor::new(&tokens, END);
    ConditionalWidget::parse(&mut cursor, None, &mut names).unwrap();
    assert_eq!(cursor.pos, 3);
}

#[test]
fn malformed_conditional_widgets() {
    assert_eq!(conditional("gtk::Box { }").unwrap_err(), Error::new(at(1), ErrorKind::ExpectedBranch));
    assert_eq!(conditional("if a").unwrap_err(), Error::new(END, ErrorKind::ExpectedBraces));
    assert_eq!(conditional("if { gtk::Box { } }").unwrap_err(), Error::new(at(2), ErrorKind::UnexpectedToken));
    assert_eq!(
        conditional("if a { gtk::Box { } } else b { gtk::Box { } }").unwrap_err(),
        Error::new(at(10), ErrorKind::ExpectedBraces)
    );
    assert_eq!(
        conditional("if a { gtk::Box { } } else").unwrap_err(),
        Error::new(END, ErrorKind::ExpectedBraces)
    );
    assert_eq!(
        conditional("if a { gtk::Box { } extra }").unwrap_err(),
        Error::new(at(9), ErrorKind::UnexpectedToken)
    );
    assert_eq!(conditional("if a { }").unwrap_err(), Error::new(at(3), ErrorKind::ExpectedIdent));
    assert_eq!(conditional("match a").unwrap_err(), Error::new(END, ErrorKind::ExpectedBraces));
    assert_eq!(conditional("match { }").unwrap_err(), Error::new(at(2), ErrorKind::UnexpectedToken));
    assert_eq!(
        conditional("match a { b }").unwrap_err(),
        Error::new(at(3), ErrorKind::ExpectedFatArrow)
    );
    assert_eq!(
        conditional("match a { => gtk::Box { } }").unwrap_err(),
        Error::new(at(4), ErrorKind::UnexpectedToken)
    );
    assert_eq!(
        conditional("match a { if b => gtk::Box { } }").unwrap_err(),
        Error::new(at(4), ErrorKind::UnexpectedToken)
    );
    assert_eq!(
        conditional("match a { b => gtk::Box { } c => gtk::Box { } }").unwrap_err(),
        Error::new(at(12), ErrorKind::UnexpectedToken)
    );
    assert_eq!(
        conditional("match a { b => gtk::Box }").unwrap_err(),
        Error::new(at(3), ErrorKind::ExpectedBraces)
    );
}

#[test]
fn every_diagnostic_has_a_text() {
    let kinds = [
        ErrorKind::ExpectedIdent,
        ErrorKind::ExpectedFatArrow,
        ErrorKind::ExpectedAttribute,
        ErrorKind::ExpectedBraces,
        ErrorKind::ExpectedParentheses,
        ErrorKind::ExpectedBranch,
        ErrorKind::UnexpectedToken,
        ErrorKind::UnknownAttribute,
        ErrorKind::RenamedLocal,
        ErrorKind::NameSpecifiedTwice,
        ErrorKind::AttributeTwice,
        ErrorKind::InvalidWidgetAttribute,
        ErrorKind::InvalidPropertyAttribute,
        ErrorKind::UnexpectedArguments,
        ErrorKind::ExpectedLocalIdent,
    ];
    let mut texts: Vec<String> = Vec::new();
    for kind in kinds {
        let text = Error::new(at(1), kind).message();
        assert!(!text.is_empty());
        assert!(!texts.contains(&text));
        texts.push(text);
    }
}

// ---------------------------------------------------------------------
// From source text to generated code
// ---------------------------------------------------------------------

#[test]
fn parsed_tree_generates_the_selectors() {
    let source = "main_window = gtk::ApplicationWindow { \
            set_title: Some(\"Counter\"), \
            #[watch] set_default_width: model.width, \
            set_child = gtk::Box { \
                #[name(stack)] \
                append = if model.counter > 10 { \
                    big = gtk::Label { \
                        #[watch] set_label: &model.counter.to_string(), \
                        set_margin_all: 5, \
                        #[track(.changed(AppModel::counter()))] set_opacity: 0.5, \
                    } \
                } else { \
                    small = gtk::Label { \
                        #[track(model.shown)] gtk::prelude::set_visible: true, \
                        inner = match model.mode { \
                            Mode::A => #[local] a { #[watch] set_a: 1 } -> handle { #[watch] set_h: 2 }, \
                            _ => gtk::Image { }, \
                        }, \
                    } \
                }, \
            }, \
        }";
    let widget = parse(source).unwrap();
    let mut stream = TokenStream::new();
    let model = Ident::new("model", Span::call_site());
    let relm4 = Path { leading_colon: false, segments: vec![Ident::new("relm4", Span::call_site())] };
    widget.init_conditional_init_stream(&mut stream, &model, &relm4);
    let expected = "let __current_page = \"\"; \
        stack.set_visible_child_name( \
            if model.counter > 10 { \
                big.set_label(&model.counter.to_string()); \
                if model.changed(AppModel::counter()) { big.set_opacity(0.5); } \
                \"0\" \
            } else { \
                if model.shown { gtk::prelude::set_visible(& small , true); } \
                let __current_page = \"\"; \
                _conditional_widget_0.set_visible_child_name(match model.mode { \
                    Mode::A => { a.set_a(1); handle.set_h(2); \"0\" } , \
                    _ => { \"1\" } , \
                }); \
                \"1\" \
            } \
        );";
    assert_eq!(plain(&stream), lex_plain(expected));
}
