use prql_ast::{
    display_interpolation, BinOp, Dialect, FuncCall, FuncCurry, FuncDef, FuncParam,
    InterpolateItem, Interval, Item, JoinFilter, JoinSide, Literal, NamedExpr, Node, Pipeline,
    Query, Range, Table, TableRef, Transform, Ty, UnOp, WindowKind, Windowed,
};

fn node(item: Item) -> Node {
    Node::from(item)
}

fn ident(name: &str) -> Node {
    node(Item::Ident(name.to_string()))
}

fn integer(i: i64) -> Node {
    node(Item::Literal(Literal::Integer(i)))
}

fn boxed(n: Node) -> Box<Node> {
    Box::new(n)
}

#[test]
fn empty_renders_as_parentheses() {
    assert_eq!(Item::Empty.to_string(), "()");
}

#[test]
fn ident_renders_verbatim() {
    assert_eq!(Item::Ident("employees.salary".to_string()).to_string(), "employees.salary");
}

#[test]
fn assign_and_named_arg() {
    let assign = Item::Assign(NamedExpr { name: "total".to_string(), expr: boxed(ident("x")) });
    assert_eq!(assign.to_string(), "total = x");
    let named = Item::NamedArg(NamedExpr { name: "by".to_string(), expr: boxed(ident("x")) });
    assert_eq!(named.to_string(), "by:x");
}

#[test]
fn unbounded_range_renders_as_two_dots() {
    assert_eq!(Item::Range(Range::unbounded()).to_string(), "..");
}

#[test]
fn range_renders_the_bounds_it_has() {
    assert_eq!(Item::Range(Range::from_ints(Some(1), None)).to_string(), "1..");
    assert_eq!(Item::Range(Range::from_ints(None, Some(5))).to_string(), "..5");
    assert_eq!(Item::Range(Range::from_ints(Some(1), Some(5))).to_string(), "1..5");
    assert_eq!(Item::Range(Range::from_ints(Some(-3), Some(-1))).to_string(), "-3..-1");
}

#[test]
fn list_layouts() {
    assert_eq!(Item::List(vec![]).to_string(), "[]");
    assert_eq!(Item::List(vec![integer(1)]).to_string(), "[1]");
    assert_eq!(Item::List(vec![integer(1), integer(2)]).to_string(), "[\n  1,\n  2,\n]");
    assert_eq!(
        Item::List(vec![integer(1), integer(2), integer(3)]).to_string(),
        "[\n  1,\n  2,\n  3,\n]"
    );
}

#[test]
fn nested_list() {
    let inner = node(Item::List(vec![integer(1)]));
    assert_eq!(Item::List(vec![inner, integer(2)]).to_string(), "[\n  [1],\n  2,\n]");
}

#[test]
fn pipeline_layouts() {
    assert_eq!(Item::Pipeline(Pipeline::from(vec![])).to_string(), "()");
    assert_eq!(Item::Pipeline(Pipeline::from(vec![ident("A")])).to_string(), "(A)");
    assert_eq!(
        Item::Pipeline(Pipeline::from(vec![ident("A"), ident("B")])).to_string(),
        "(\n  A\n  B\n)"
    );
    assert_eq!(
        Item::Pipeline(Pipeline::from(vec![ident("A"), ident("B"), ident("C")])).to_string(),
        "(\n  A\n  B\n  C\n)"
    );
}

#[test]
fn transform_renders_as_a_stub() {
    assert_eq!(Item::Transform(Transform::Unique).to_string(), "Unique <unimplemented>");
    assert_eq!(
        Item::Transform(Transform::Filter(boxed(ident("x")))).to_string(),
        "Filter <unimplemented>"
    );
    let from = Transform::From(TableRef {
        name: "employees".to_string(),
        alias: None,
        declared_at: None,
    });
    assert_eq!(from.as_ref(), "From");
    assert_eq!(Item::Transform(from).to_string(), "From <unimplemented>");
    assert_eq!(Transform::Select(vec![]).as_ref(), "Select");
    assert_eq!(Transform::Derive(vec![]).as_ref(), "Derive");
    assert_eq!(Transform::Aggregate { assigns: vec![], by: vec![] }.as_ref(), "Aggregate");
    assert_eq!(Transform::Sort(vec![]).as_ref(), "Sort");
    assert_eq!(
        Transform::Take { range: Range::unbounded(), by: vec![], sort: vec![] }.as_ref(),
        "Take"
    );
    assert_eq!(Transform::Group { by: vec![], pipeline: boxed(ident("p")) }.as_ref(), "Group");
    let join = Transform::Join {
        side: JoinSide::Left,
        with: TableRef { name: "salaries".to_string(), alias: Some("s".to_string()), declared_at: None },
        filter: JoinFilter::Using(vec![ident("id")]),
    };
    assert_eq!(join.as_ref(), "Join");
    assert_eq!(
        Transform::Window {
            kind: WindowKind::Rows,
            range: Range::unbounded(),
            pipeline: boxed(ident("p")),
        }
        .as_ref(),
        "Window"
    );
}

#[test]
fn func_def_text() {
    let def = FuncDef {
        name: "f".to_string(),
        positional_params: vec![FuncParam { name: "x".to_string(), default_value: None }],
        named_params: vec![FuncParam { name: "y".to_string(), default_value: Some(integer(0)) }],
        body: boxed(ident("B")),
    };
    assert_eq!(Item::FuncDef(def).to_string(), "func f x y = B\n\n");
}

#[test]
fn func_def_without_params() {
    let def = FuncDef {
        name: "one".to_string(),
        positional_params: vec![],
        named_params: vec![],
        body: boxed(integer(1)),
    };
    assert_eq!(Item::FuncDef(def).to_string(), "func one = 1\n\n");
}

#[test]
fn table_text() {
    let table = Table {
        name: "t".to_string(),
        pipeline: boxed(node(Item::Pipeline(Pipeline::from(vec![ident("A")])))),
        id: None,
    };
    assert_eq!(Item::Table(table).to_string(), "table t = (A)\n\n");
}

#[test]
fn binary_text_for_every_operator() {
    let cases = [
        (BinOp::Mul, "*"),
        (BinOp::Div, "/"),
        (BinOp::Mod, "%"),
        (BinOp::Add, "+"),
        (BinOp::Sub, "-"),
        (BinOp::Eq, "=="),
        (BinOp::Ne, "!="),
        (BinOp::Gt, ">"),
        (BinOp::Lt, "<"),
        (BinOp::Gte, ">="),
        (BinOp::Lte, "<="),
        (BinOp::And, "and"),
        (BinOp::Or, "or"),
        (BinOp::Coalesce, "??"),
    ];
    for (op, symbol) in cases {
        assert_eq!(op.to_string(), symbol);
        assert_eq!(op.as_str(), symbol);
        let item = Item::Binary { left: boxed(ident("a")), op, right: boxed(integer(2)) };
        assert_eq!(item.to_string(), format!("a {} 2", symbol));
    }
}

#[test]
fn unary_text() {
    let not = Item::Unary { op: UnOp::Not, expr: boxed(ident("X")) };
    assert_eq!(not.to_string(), "not X");
    let neg = Item::Unary { op: UnOp::Neg, expr: boxed(ident("X")) };
    assert_eq!(neg.to_string(), "!X");
    assert_eq!(UnOp::Not.as_prefix(), "not ");
    assert_eq!(UnOp::Neg.as_prefix(), "!");
}

#[test]
fn func_call_renders_named_before_positional() {
    let mut call = FuncCall::without_args(ident("f"));
    assert_eq!(Item::FuncCall(FuncCall::without_args(ident("f"))).to_string(), "f");
    call.args.push(integer(1));
    call.args.push(ident("x"));
    call.insert_named_arg("by".to_string(), ident("dept"));
    assert_eq!(Item::FuncCall(call).to_string(), "f by: dept 1 x");
}

#[test]
fn func_call_named_args_keep_call_order() {
    let names = ["zeta", "alpha", "mid", "beta", "omega", "a", "b", "c"];
    let mut expected = String::from("f");
    let mut call = FuncCall::without_args(ident("f"));
    for (i, name) in names.iter().enumerate() {
        call.insert_named_arg(name.to_string(), integer(i as i64));
        expected.push_str(&format!(" {}: {}", name, i));
    }
    let first = Item::FuncCall(call).to_string();
    assert_eq!(first, expected);
    for _ in 0..20 {
        let mut again = FuncCall::without_args(ident("f"));
        for (i, name) in names.iter().enumerate() {
            again.insert_named_arg(name.to_string(), integer(i as i64));
        }
        assert_eq!(Item::FuncCall(again).to_string(), first);
    }
}

#[test]
fn func_curry_renders_as_a_placeholder() {
    let curry = FuncCurry { def_id: 7, args: vec![integer(1)], named_args: vec![None, Some(integer(2))] };
    assert_eq!(Item::FuncCurry(curry).to_string(), "(func ? -> ?)");
}

#[test]
fn string_templates() {
    let parts = || {
        vec![
            InterpolateItem::String("SUM(".to_string()),
            InterpolateItem::Expr(boxed(ident("col"))),
            InterpolateItem::String(")".to_string()),
        ]
    };
    assert_eq!(Item::SString(parts()).to_string(), "s\"SUM({col})\"");
    assert_eq!(Item::FString(parts()).to_string(), "f\"SUM({col})\"");
    assert_eq!(Item::SString(vec![]).to_string(), "s\"\"");
}

#[test]
fn display_interpolation_appends() {
    let mut out = String::from("x = ");
    let parts = vec![
        InterpolateItem::Expr(boxed(integer(1))),
        InterpolateItem::String(" and ".to_string()),
        InterpolateItem::Expr(boxed(node(Item::List(vec![integer(2)])))),
    ];
    display_interpolation(&mut out, "f", &parts);
    assert_eq!(out, "x = f\"{1} and {[2]}\"");
}

#[test]
fn interval_text() {
    assert_eq!(Item::Interval(Interval { n: 3, unit: "days".to_string() }).to_string(), "3days");
    assert_eq!(
        Item::Interval(Interval { n: -12, unit: "hours".to_string() }).to_string(),
        "-12hours"
    );
    assert_eq!(Item::Interval(Interval { n: 0, unit: "s".to_string() }).to_string(), "0s");
}

#[test]
fn type_text() {
    assert_eq!(Item::Type(Ty::Named("column".to_string())).to_string(), "<column>");
    assert_eq!(Item::Type(Ty::Empty).to_string(), "<()>");
    assert_eq!(Item::Type(Ty::Infer).to_string(), "<infer>");
    let any = Ty::AnyOf(vec![
        Ty::Named("int".to_string()),
        Ty::Named("float".to_string()),
        Ty::AnyOf(vec![]),
        Ty::Infer,
    ]);
    assert_eq!(Item::Type(any).to_string(), "<int|float||infer>");
}

#[test]
fn literal_texts() {
    assert_eq!(Literal::Null.to_string(), "null");
    assert_eq!(Literal::Integer(0).to_string(), "0");
    assert_eq!(Literal::Integer(7).to_string(), "7");
    assert_eq!(Literal::Integer(10).to_string(), "10");
    assert_eq!(Literal::Integer(1234567890).to_string(), "1234567890");
    assert_eq!(Literal::Integer(-1).to_string(), "-1");
    assert_eq!(Literal::Integer(i64::MAX).to_string(), "9223372036854775807");
    assert_eq!(Literal::Integer(i64::MIN).to_string(), "-9223372036854775808");
    assert_eq!(Literal::Float("1.5e3".to_string()).to_string(), "1.5e3");
    assert_eq!(Literal::Boolean(true).to_string(), "true");
    assert_eq!(Literal::Boolean(false).to_string(), "false");
    assert_eq!(Literal::String("hi".to_string()).to_string(), "\"hi\"");
    assert_eq!(Literal::Date("2022-01-31".to_string()).to_string(), "@2022-01-31");
    assert_eq!(Literal::Time("10:00".to_string()).to_string(), "@10:00");
    assert_eq!(
        Literal::Timestamp("2022-01-31T10:00".to_string()).to_string(),
        "@2022-01-31T10:00"
    );
    assert_eq!(Item::Literal(Literal::Integer(42)).to_string(), "42");
}

#[test]
fn integers_render_as_the_standard_library_prints_them() {
    let samples = [
        0i64, 1, 9, 10, 11, 99, 100, 101, 999, 1000, 65535, 123456789, -1, -9, -10, -100,
        -98765, i64::MAX, i64::MIN, i64::MIN + 1, i64::MAX - 1,
    ];
    for n in samples {
        assert_eq!(Literal::Integer(n).to_string(), format!("{}", n));
    }
}

#[test]
fn windowed_renders_the_debug_form_of_its_expression() {
    let windowed = Windowed::new(ident("x"), (WindowKind::Rows, Range::unbounded()));
    assert_eq!(
        Item::Windowed(windowed).to_string(),
        "Node { item: Ident(\"x\"), span: None, declared_at: None }"
    );
    let other = Windowed::new(integer(3), (WindowKind::Range, Range::from_ints(Some(1), None)));
    assert_eq!(
        Item::Windowed(other).to_string(),
        "Node { item: Literal(Integer(3)), span: None, declared_at: None }"
    );
}

#[test]
fn query_flattens_pipelines_at_its_top_level() {
    let def = FuncDef {
        name: "f".to_string(),
        positional_params: vec![FuncParam { name: "x".to_string(), default_value: None }],
        named_params: vec![],
        body: boxed(ident("x")),
    };
    let query = Query {
        version: None,
        dialect: Dialect::Generic,
        nodes: vec![
            node(Item::FuncDef(def)),
            node(Item::Pipeline(Pipeline::from(vec![ident("A"), ident("B")]))),
        ],
    };
    assert_eq!(
        Item::Query(query).to_string(),
        "prql dialect: generic\n\nfunc f x = x\n\nA\nB\n"
    );
}

#[test]
fn query_without_nodes() {
    let query = Query { version: Some(1), dialect: Dialect::PostgreSql, nodes: vec![] };
    assert_eq!(Item::Query(query).to_string(), "prql dialect: postgres\n\n");
}

#[test]
fn query_keeps_a_nested_pipeline_in_parentheses() {
    let inner = node(Item::Pipeline(Pipeline::from(vec![ident("A"), ident("B")])));
    let query = Query {
        version: None,
        dialect: Dialect::Ansi,
        nodes: vec![
            node(Item::Pipeline(Pipeline::from(vec![inner]))),
            ident("tail"),
        ],
    };
    assert_eq!(
        Item::Query(query).to_string(),
        "prql dialect: ansi\n\n(\n  A\n  B\n)\ntail"
    );
}

#[test]
fn dialect_names() {
    assert_eq!(Dialect::Ansi.as_str(), "ansi");
    assert_eq!(Dialect::BigQuery.as_str(), "bigquery");
    assert_eq!(Dialect::ClickHouse.as_str(), "clickhouse");
    assert_eq!(Dialect::Generic.as_str(), "generic");
    assert_eq!(Dialect::Hive.as_str(), "hive");
    assert_eq!(Dialect::MsSql.as_str(), "mssql");
    assert_eq!(Dialect::MySql.as_str(), "mysql");
    assert_eq!(Dialect::PostgreSql.as_str(), "postgres");
    assert_eq!(Dialect::SQLite.as_str(), "sqlite");
    assert_eq!(Dialect::Snowflake.as_str(), "snowflake");
}

#[test]
fn fmt_appends_to_what_is_there() {
    let mut out = String::from("-> ");
    Item::List(vec![integer(1)]).fmt(&mut out);
    Item::Empty.fmt(&mut out);
    assert_eq!(out, "-> [1]()");
}

#[test]
fn delimiters_are_balanced_around_nested_nodes() {
    let list = node(Item::List(vec![integer(1), integer(2)]));
    let pipeline = node(Item::Pipeline(Pipeline::from(vec![list, ident("B")])));
    let template = Item::SString(vec![InterpolateItem::Expr(boxed(pipeline))]);
    let text = template.to_string();
    assert_eq!(text, "s\"{(\n  [\n  1,\n  2,\n]\n  B\n)}\"");
    assert!(text.starts_with("s\"") && text.ends_with('"'));
    for (open, close) in [('[', ']'), ('(', ')'), ('{', '}')] {
        let opened = text.chars().filter(|c| *c == open).count();
        let closed = text.chars().filter(|c| *c == close).count();
        assert_eq!(opened, closed);
    }
}

#[test]
fn pipeline_inline_mode_joins_the_stages_with_pipes() {
    let mut out = String::new();
    Pipeline::from(vec![]).fmt_inline(&mut out);
    assert_eq!(out, "");
    Pipeline::from(vec![ident("A")]).fmt_inline(&mut out);
    assert_eq!(out, "A");
    let mut out = String::from(">");
    Pipeline::from(vec![ident("A"), ident("B"), ident("C")]).fmt_inline(&mut out);
    assert_eq!(out, ">A | B | C");
}

#[test]
fn pipeline_block_mode_puts_each_stage_on_a_line() {
    let mut out = String::new();
    Pipeline::from(vec![]).fmt_block(&mut out);
    assert_eq!(out, "\n");
    let mut out = String::new();
    Pipeline::from(vec![ident("A")]).fmt_block(&mut out);
    assert_eq!(out, "\n  A\n");
    let mut out = String::from(">");
    Pipeline::from(vec![ident("A"), ident("B")]).fmt_block(&mut out);
    assert_eq!(out, ">\n  A\n  B\n");
}

#[test]
fn the_text_of_a_shown_item_stands_in_the_text_around_it() {
    let list = || Item::List(vec![integer(1), integer(2)]);
    let template = || Item::FString(vec![
        InterpolateItem::String("n = ".to_string()),
        InterpolateItem::Expr(boxed(node(list()))),
    ]);
    let call = || {
        let mut call = FuncCall::without_args(ident("f"));
        call.insert_named_arg("with".to_string(), node(template()));
        call.args.push(node(Item::Type(Ty::Named("int".to_string()))));
        Item::FuncCall(call)
    };
    let query = Item::Query(Query {
        version: None,
        dialect: Dialect::Generic,
        nodes: vec![node(Item::Pipeline(Pipeline::from(vec![node(call()), ident("B")])))],
    });
    let text = query.to_string();
    assert_eq!(
        text,
        "prql dialect: generic\n\nf with: f\"n = {[\n  1,\n  2,\n]}\" <int>\nB\n"
    );
    for inner in [list(), template(), call(), Item::Type(Ty::Named("int".to_string()))] {
        assert!(text.contains(&inner.to_string()));
    }
    assert!(list().to_string().starts_with('[') && list().to_string().ends_with(']'));
    assert!(template().to_string().starts_with("f\"") && template().to_string().ends_with('"'));
}
