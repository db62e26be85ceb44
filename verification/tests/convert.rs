use prql_ast::{
    FuncCall, Item, Literal, Node, Pipeline, Range, Transform, TypeMismatch, WindowKind, Windowed,
};

fn ident(name: &str) -> Node {
    Node::from(Item::Ident(name.to_string()))
}

fn literal(literal: Literal) -> Option<Box<Node>> {
    Some(Box::new(Node::from(Item::Literal(literal))))
}

fn transform(t: Transform) -> Node {
    Node::from(Item::Transform(t))
}

#[test]
fn unbounded_has_no_bounds() {
    assert_eq!(Range::unbounded(), Range { start: None, end: None });
}

#[test]
fn the_default_range_has_no_bounds() {
    assert_eq!(Range::<i64>::default(), Range { start: None, end: None });
    let range: Range = Range::default();
    assert_eq!(range, Range::unbounded());
}

#[test]
fn from_ints_wraps_integers_as_literals() {
    let range = Range::from_ints(Some(-2), None);
    assert_eq!(range, Range { start: literal(Literal::Integer(-2)), end: None });
    let start = range.start.unwrap();
    assert_eq!(start.item, Item::Literal(Literal::Integer(-2)));
    assert_eq!(start.span, None);
    assert_eq!(start.declared_at, None);
}

#[test]
fn from_ints_then_into_int_is_the_identity() {
    let cases = [
        (Some(1), Some(5)),
        (Some(i64::MIN), Some(i64::MAX)),
        (Some(0), None),
        (None, Some(-7)),
        (None, None),
        (Some(5), Some(1)),
    ];
    for (start, end) in cases {
        assert_eq!(Range::from_ints(start, end).into_int(), Ok(Range { start, end }));
    }
}

#[test]
fn into_int_of_unbounded() {
    assert_eq!(Range::unbounded().into_int(), Ok(Range { start: None, end: None }));
}

#[test]
fn into_int_rejects_a_bound_that_is_no_integer() {
    let range = Range { start: literal(Literal::Integer(1)), end: literal(Literal::Boolean(true)) };
    assert_eq!(
        range.into_int(),
        Err(TypeMismatch { found: Item::Literal(Literal::Boolean(true)) })
    );
    let range = Range { start: literal(Literal::Float("1.0".to_string())), end: None };
    assert_eq!(
        range.into_int(),
        Err(TypeMismatch { found: Item::Literal(Literal::Float("1.0".to_string())) })
    );
}

#[test]
fn into_int_rejects_a_bound_that_is_no_literal() {
    let range = Range { start: None, end: Some(Box::new(ident("x"))) };
    assert_eq!(range.into_int(), Err(TypeMismatch { found: Item::Ident("x".to_string()) }));
}

#[test]
fn into_int_reports_the_start_before_the_end() {
    let range = Range { start: Some(Box::new(ident("a"))), end: Some(Box::new(ident("b"))) };
    assert_eq!(range.into_int(), Err(TypeMismatch { found: Item::Ident("a".to_string()) }));
}

#[test]
fn type_mismatch_message() {
    let error = TypeMismatch::from(Item::Ident("x".to_string()));
    assert_eq!(error.message(), "Failed to convert `x`");
    let error = Range { start: literal(Literal::Null), end: None }.into_int().unwrap_err();
    assert_eq!(error.message(), "Failed to convert `null`");
}

#[test]
fn into_literal_and_into_integer() {
    assert_eq!(Item::Literal(Literal::Null).into_literal(), Ok(Literal::Null));
    assert_eq!(Item::Empty.into_literal(), Err(Item::Empty));
    assert_eq!(Literal::Integer(4).into_integer(), Ok(4));
    assert_eq!(Literal::Boolean(false).into_integer(), Err(Literal::Boolean(false)));
}

#[test]
fn into_transform_and_as_transform() {
    assert_eq!(Item::Transform(Transform::Unique).into_transform(), Ok(Transform::Unique));
    assert_eq!(Item::Empty.into_transform(), Err(Item::Empty));
    assert_eq!(Item::Transform(Transform::Unique).as_transform(), Some(&Transform::Unique));
    assert_eq!(Item::Empty.as_transform(), None);
}

#[test]
fn as_transforms_of_an_empty_pipeline_is_empty() {
    let pipeline = Pipeline::from(vec![]);
    assert_eq!(pipeline.as_transforms(), Some(vec![]));
}

#[test]
fn into_transforms_of_an_empty_pipeline_is_empty() {
    assert_eq!(Pipeline::from(vec![]).into_transforms(), Ok(vec![]));
}

#[test]
fn transforms_of_a_pipeline_of_transforms() {
    let make = || {
        Pipeline::from(vec![
            transform(Transform::Select(vec![ident("a")])),
            transform(Transform::Unique),
            transform(Transform::Filter(Box::new(ident("b")))),
        ])
    };
    let expected = vec![
        Transform::Select(vec![ident("a")]),
        Transform::Unique,
        Transform::Filter(Box::new(ident("b"))),
    ];
    let pipeline = make();
    assert_eq!(pipeline.as_transforms(), Some(expected.iter().collect::<Vec<_>>()));
    assert_eq!(pipeline, make());
    assert_eq!(make().into_transforms(), Ok(expected));
}

#[test]
fn as_transforms_is_all_or_nothing() {
    let pipeline = Pipeline::from(vec![
        transform(Transform::Unique),
        ident("x"),
        transform(Transform::Unique),
    ]);
    assert_eq!(pipeline.as_transforms(), None);
    assert_eq!(pipeline.nodes.len(), 3);
}

#[test]
fn into_transforms_fails_with_the_first_other_item() {
    let pipeline = Pipeline::from(vec![
        transform(Transform::Unique),
        ident("first"),
        transform(Transform::Unique),
        ident("second"),
    ]);
    assert_eq!(pipeline.into_transforms(), Err(Item::Ident("first".to_string())));
    let pipeline = Pipeline::from(vec![Node::from(Item::Empty)]);
    assert_eq!(pipeline.into_transforms(), Err(Item::Empty));
}

#[test]
fn without_args_has_no_arguments() {
    let call = FuncCall::without_args(ident("f"));
    assert_eq!(*call.name, ident("f"));
    assert!(call.args.is_empty());
    assert!(call.named_args.is_empty());
}

#[test]
fn windowed_new_is_neither_grouped_nor_sorted() {
    let windowed = Windowed::new(ident("x"), (WindowKind::Rows, Range::from_ints(Some(1), None)));
    assert_eq!(*windowed.expr, ident("x"));
    assert!(windowed.group.is_empty());
    assert!(windowed.sort.is_empty());
    assert_eq!(windowed.window, (WindowKind::Rows, Range::from_ints(Some(1), None)));
}

#[test]
fn named_args_are_a_mapping_in_call_order() {
    let mut call = FuncCall::without_args(ident("f"));
    assert_eq!(call.insert_named_arg("b".to_string(), ident("one")), None);
    assert_eq!(call.insert_named_arg("a".to_string(), ident("two")), None);
    assert_eq!(call.insert_named_arg("b".to_string(), ident("three")), Some(ident("one")));
    assert_eq!(call.named_args.len(), 2);
    assert_eq!(call.named_args[0].name, "b");
    assert_eq!(*call.named_args[0].expr, ident("three"));
    assert_eq!(call.named_args[1].name, "a");
    assert_eq!(call.named_arg(&"a".to_string()), Some(&ident("two")));
    assert_eq!(call.named_arg(&"b".to_string()), Some(&ident("three")));
    assert_eq!(call.named_arg(&"c".to_string()), None);
}
