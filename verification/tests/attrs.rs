use nanos_ui::{
    lit_to_quote, menu_group, quote_literal, Attribute, FieldAttrs, InvalidIdent, Literal,
    MetaBody, MetaItem, NestedItem, ATTRIBUTE_GROUP,
};

fn label(value: &str) -> NestedItem {
    NestedItem::NameValue(Literal::Str(value.to_string()))
}

fn attribute(path: Option<&str>, body: MetaBody) -> Attribute {
    Attribute { meta: Some(MetaItem { path: path.map(|p| p.to_string()), body }) }
}

#[test]
fn the_group_is_called_menu() {
    assert_eq!(ATTRIBUTE_GROUP, "menu");
}

#[test]
fn integer_literal_is_written_as_it_stands() {
    assert_eq!(lit_to_quote(&Literal::Int("42u8".to_string())), Ok(Some("42u8".to_string())));
}

#[test]
fn verbatim_literal_is_written_as_it_stands() {
    assert_eq!(lit_to_quote(&Literal::Verbatim("0b__".to_string())), Ok(Some("0b__".to_string())));
}

#[test]
fn other_literal_has_no_token() {
    assert_eq!(lit_to_quote(&Literal::Other), Ok(None));
}

#[test]
fn string_literal_is_written_as_the_identifier_it_names() {
    assert_eq!(lit_to_quote(&Literal::Str("Back".to_string())), Ok(Some("Back".to_string())));
    assert_eq!(
        lit_to_quote(&Literal::Str("go_home".to_string())),
        Ok(Some("go_home".to_string()))
    );
}

#[test]
fn string_literal_is_read_as_tokens_not_copied() {
    assert_eq!(lit_to_quote(&Literal::Str("  Back ".to_string())), Ok(Some("Back".to_string())));
    assert_eq!(
        lit_to_quote(&Literal::Str("/* note */ Back".to_string())),
        Ok(Some("Back".to_string()))
    );
}

#[test]
fn string_literal_that_names_no_identifier_is_refused() {
    for value in ["two words", "", "1st", "a-b", "fn", "_", "a::b"] {
        assert_eq!(
            lit_to_quote(&Literal::Str(value.to_string())),
            Err(InvalidIdent { value: value.to_string() })
        );
    }
}

#[test]
fn quote_literal_writes_the_identifier_that_was_read() {
    let lit = Literal::Str("any text".to_string());
    assert_eq!(quote_literal(&lit, Some("Back".to_string())), Ok(Some("Back".to_string())));
}

#[test]
fn quote_literal_refuses_a_string_without_an_identifier() {
    let lit = Literal::Str("Back".to_string());
    assert_eq!(quote_literal(&lit, None), Err(InvalidIdent { value: "Back".to_string() }));
}

#[test]
fn quote_literal_does_not_look_at_the_identifier_for_other_literals() {
    let read = Some("Back".to_string());
    assert_eq!(
        quote_literal(&Literal::Int("7".to_string()), read.clone()),
        Ok(Some("7".to_string()))
    );
    assert_eq!(quote_literal(&Literal::Int("7".to_string()), None), Ok(Some("7".to_string())));
    assert_eq!(
        quote_literal(&Literal::Verbatim("1e".to_string()), read.clone()),
        Ok(Some("1e".to_string()))
    );
    assert_eq!(quote_literal(&Literal::Verbatim("1e".to_string()), None), Ok(Some("1e".to_string())));
    assert_eq!(quote_literal(&Literal::Other, read), Ok(None));
    assert_eq!(quote_literal(&Literal::Other, None), Ok(None));
}

#[test]
fn group_is_the_first_attribute_named_menu() {
    let first = vec![label("One")];
    let second = vec![label("Two")];
    let attrs = vec![
        attribute(Some("doc"), MetaBody::NameValue),
        Attribute { meta: None },
        attribute(None, MetaBody::List(vec![label("Path")])),
        attribute(Some("menu"), MetaBody::List(first.clone())),
        attribute(Some("menu"), MetaBody::List(second)),
    ];
    assert_eq!(menu_group(&attrs), Some(&first));
}

#[test]
fn group_without_an_argument_list_is_absent() {
    let attrs = vec![
        attribute(Some("menu"), MetaBody::Path),
        attribute(Some("menu"), MetaBody::List(vec![label("Late")])),
    ];
    assert_eq!(menu_group(&attrs), None);
    let attrs = vec![attribute(Some("menu"), MetaBody::NameValue)];
    assert_eq!(menu_group(&attrs), None);
}

#[test]
fn group_is_absent_without_attributes() {
    assert_eq!(menu_group(&Vec::new()), None);
    assert_eq!(menu_group(&vec![attribute(Some("Menu"), MetaBody::List(vec![]))]), None);
}

#[test]
fn default_has_no_label() {
    assert_eq!(FieldAttrs::default(), FieldAttrs { label: None });
}

#[test]
fn parse_never_sets_a_label() {
    let attrs = vec![attribute(
        Some("menu"),
        MetaBody::List(vec![
            label("Back"),
            NestedItem::Other,
            NestedItem::NameValue(Literal::Int("3".to_string())),
            NestedItem::NameValue(Literal::Other),
        ]),
    )];
    assert_eq!(FieldAttrs::parse(&attrs).label, None);
    assert_eq!(FieldAttrs::parse(&Vec::new()).label, None);
    assert_eq!(FieldAttrs::parse(&vec![attribute(Some("doc"), MetaBody::Path)]).label, None);
}

#[test]
fn parse_gets_past_a_string_that_names_no_identifier() {
    let attrs = vec![attribute(Some("menu"), MetaBody::List(vec![label("two words"), label("Back")]))];
    assert_eq!(FieldAttrs::parse(&attrs), FieldAttrs { label: None });
}
