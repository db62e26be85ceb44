//! Rendering a tree as source text.

use vstd::prelude::*;
use vstd::std_specs::vec::{axiom_vec_decreases_to_view, axiom_vec_index_decreases};
use vstd::seq::axiom_seq_index_decreases;
use crate::item::{
    FuncCall, InterpolateItem, Interval, Item, NamedExpr, Node, Pipeline, Range,
};
use crate::layout::{
    block_stages, concat, inline_stages, list_layout, pipeline_layout, template_layout,
};
use crate::ops::UnOp;
use crate::query::{FuncDef, FuncParam, Query, Table, Transform};
use crate::types::Ty;
use crate::text::{int_text, join, lemma_join_step, lemma_wrap_each_step, push_int, wrap_each};

verus! {

/// What the debugging format of the standard library prints for `node`.
pub uninterp spec fn debug_text(node: Node) -> Seq<char>;

/// The text of each node's item, in order.
pub open spec fn node_texts(nodes: Seq<Node>) -> Seq<Seq<char>>
    decreases nodes,
{
    Seq::new(
        nodes.len(),
        |i: int|
            if 0 <= i < nodes.len() {
                nodes[i].item.text()
            } else {
                Seq::empty()
            },
    )
}

/// Each named argument as ` name: value`.
pub open spec fn named_arg_texts(named: Seq<NamedExpr>) -> Seq<Seq<char>>
    decreases named,
{
    Seq::new(
        named.len(),
        |i: int|
            if 0 <= i < named.len() {
                " "@ + named[i].name@ + ": "@ + named[i].expr.item.text()
            } else {
                Seq::empty()
            },
    )
}

/// Each part of a string template: literal text as it is, an expression
/// between braces.
pub open spec fn part_texts(parts: Seq<InterpolateItem>) -> Seq<Seq<char>>
    decreases parts,
{
    Seq::new(
        parts.len(),
        |i: int|
            if 0 <= i < parts.len() {
                match parts[i] {
                    InterpolateItem::String(s) => s@,
                    InterpolateItem::Expr(e) => "{"@ + e.item.text() + "}"@,
                }
            } else {
                Seq::empty()
            },
    )
}

/// Each node at the top level of a query: a pipeline as its stages, one per
/// line and without parentheses; any other node as its own text.
pub open spec fn top_level_texts(nodes: Seq<Node>) -> Seq<Seq<char>>
    decreases nodes,
{
    Seq::new(
        nodes.len(),
        |i: int|
            if 0 <= i < nodes.len() {
                match nodes[i].item {
                    Item::Pipeline(p) => wrap_each(node_texts(p.nodes@), Seq::empty(), "\n"@),
                    _ => nodes[i].item.text(),
                }
            } else {
                Seq::empty()
            },
    )
}

/// The text of a bound of a range: nothing where the bound is missing.
pub open spec fn bound_text(bound: Option<Box<Node>>) -> Seq<char>
    decreases bound,
{
    match bound {
        Some(node) => node.item.text(),
        None => Seq::empty(),
    }
}

/// Each parameter as a blank and its name.
pub open spec fn param_texts(params: Seq<FuncParam>) -> Seq<Seq<char>> {
    Seq::new(params.len(), |i: int| " "@ + params[i].name@)
}

impl Item {
    /// The item as source text.
    pub open spec fn text(self) -> Seq<char>
        decreases self,
    {
        match self {
            Item::Empty => "()"@,
            Item::Ident(name) => name@,
            Item::Literal(literal) => literal.text(),
            Item::Assign(named) => named.name@ + " = "@ + named.expr.item.text(),
            Item::NamedArg(named) => named.name@ + ":"@ + named.expr.item.text(),
            Item::Query(query) => "prql dialect: "@ + query.dialect.text() + "\n\n"@ + concat(
                top_level_texts(query.nodes@),
            ),
            Item::Pipeline(pipeline) => pipeline_layout(node_texts(pipeline.nodes@)),
            Item::Transform(transform) => transform.kind_name() + " <unimplemented>"@,
            Item::List(nodes) => list_layout(node_texts(nodes@)),
            Item::Range(range) => bound_text(range.start) + ".."@ + bound_text(range.end),
            Item::Binary { left, op, right } => left.item.text() + " "@ + op.text() + " "@
                + right.item.text(),
            Item::Unary { op, expr } => op.prefix() + expr.item.text(),
            Item::FuncDef(def) => "func "@ + def.name@ + concat(
                param_texts(def.positional_params@),
            ) + concat(param_texts(def.named_params@)) + " = "@ + def.body.item.text() + "\n\n"@,
            Item::FuncCall(call) => call.name.item.text() + concat(
                named_arg_texts(call.named_args@),
            ) + wrap_each(node_texts(call.args@), " "@, Seq::empty()),
            Item::FuncCurry(_) => "(func ? -> ?)"@,
            Item::Type(ty) => "<"@ + ty.text() + ">"@,
            Item::Table(table) => "table "@ + table.name@ + " = "@ + table.pipeline.item.text()
                + "\n\n"@,
            Item::SString(parts) => template_layout("s"@, part_texts(parts@)),
            Item::FString(parts) => template_layout("f"@, part_texts(parts@)),
            Item::Interval(interval) => int_text(interval.n as int) + interval.unit@,
            Item::Windowed(windowed) => debug_text(*windowed.expr),
        }
    }
}

/// The dump of `node` in the debugging format of the standard library:
/// `format!` with `{:?}`, which goes through the `Debug` impls that the
/// tree's types derive. The contract gives the dump its name and claims
/// nothing of what it holds.
#[verifier::external_body]
fn debug_string(node: &Node) -> (s: String)
    ensures
        s@ == debug_text(*node),
{
    format!("{:?}", node)
}

/// Appends to `f`, for each node in turn, `before`, the node's text and
/// `after`.
fn fmt_each(nodes: &Vec<Node>, before: &str, after: &str, f: &mut String)
    ensures
        final(f)@ == old(f)@ + wrap_each(node_texts(nodes@), before@, after@),
    decreases nodes, 0int,
{
    let ghost texts = node_texts(nodes@);
    let mut i: usize = 0;
    while i < nodes.len()
        invariant
            i <= nodes.len(),
            texts == node_texts(nodes@),
            f@ == old(f)@ + wrap_each(texts.take(i as int), before@, after@),
        decreases nodes.len() - i,
    {
        proof {
            axiom_vec_index_decreases(*nodes, i as int);
            lemma_wrap_each_step(texts, i as int, before@, after@);
        }
        f.append(before);
        nodes[i].item.fmt(f);
        f.append(after);
        i += 1;
    }
    assert(texts.take(i as int) =~= texts);
}

/// Appends the texts of the nodes to `f`, with `separator` between them.
fn fmt_joined(nodes: &Vec<Node>, separator: &str, f: &mut String)
    ensures
        final(f)@ == old(f)@ + join(node_texts(nodes@), separator@),
    decreases nodes, 0int,
{
    let ghost texts = node_texts(nodes@);
    let mut i: usize = 0;
    assert(join(texts.take(0), separator@) =~= Seq::<char>::empty());
    while i < nodes.len()
        invariant
            i <= nodes.len(),
            texts == node_texts(nodes@),
            f@ == old(f)@ + join(texts.take(i as int), separator@),
        decreases nodes.len() - i,
    {
        proof {
            axiom_vec_index_decreases(*nodes, i as int);
            lemma_join_step(texts, i as int, separator@);
        }
        if i > 0 {
            f.append(separator);
        }
        nodes[i].item.fmt(f);
        i += 1;
    }
    assert(texts.take(i as int) =~= texts);
}

/// Appends the nodes at the top level of a query to `f`.
fn fmt_top_level(nodes: &Vec<Node>, f: &mut String)
    ensures
        final(f)@ == old(f)@ + concat(top_level_texts(nodes@)),
    decreases nodes, 0int,
{
    let ghost texts = top_level_texts(nodes@);
    let mut i: usize = 0;
    while i < nodes.len()
        invariant
            i <= nodes.len(),
            texts == top_level_texts(nodes@),
            f@ == old(f)@ + concat(texts.take(i as int)),
        decreases nodes.len() - i,
    {
        proof {
            axiom_vec_index_decreases(*nodes, i as int);
            lemma_wrap_each_step(texts, i as int, Seq::empty(), Seq::empty());
        }
        match &nodes[i].item {
            Item::Pipeline(p) => {
                proof {
                    reveal_strlit("");
                    assert(""@ =~= Seq::<char>::empty());
                }
                fmt_each(&p.nodes, "", "\n", f);
            },
            _ => {
                nodes[i].item.fmt(f);
            },
        }
        i += 1;
    }
    assert(texts.take(i as int) =~= texts);
}

/// Appends each named argument to `f` as ` name: value`.
fn fmt_named_args(named: &Vec<NamedExpr>, f: &mut String)
    ensures
        final(f)@ == old(f)@ + concat(named_arg_texts(named@)),
    decreases named, 0int,
{
    let ghost texts = named_arg_texts(named@);
    let mut i: usize = 0;
    while i < named.len()
        invariant
            i <= named.len(),
            texts == named_arg_texts(named@),
            f@ == old(f)@ + concat(texts.take(i as int)),
        decreases named.len() - i,
    {
        proof {
            axiom_vec_index_decreases(*named, i as int);
            lemma_wrap_each_step(texts, i as int, Seq::empty(), Seq::empty());
        }
        f.append(" ");
        f.append(named[i].name.as_str());
        f.append(": ");
        named[i].expr.item.fmt(f);
        i += 1;
    }
    assert(texts.take(i as int) =~= texts);
}

/// Appends a blank and the name of each parameter to `f`.
fn fmt_params(params: &Vec<FuncParam>, f: &mut String)
    ensures
        final(f)@ == old(f)@ + concat(param_texts(params@)),
{
    let ghost texts = param_texts(params@);
    let mut i: usize = 0;
    while i < params.len()
        invariant
            i <= params.len(),
            texts == param_texts(params@),
            f@ == old(f)@ + concat(texts.take(i as int)),
        decreases params.len() - i,
    {
        proof {
            lemma_wrap_each_step(texts, i as int, Seq::empty(), Seq::empty());
        }
        f.append(" ");
        f.append(params[i].name.as_str());
        i += 1;
    }
    assert(texts.take(i as int) =~= texts);
}

/// Appends a string template to `f`: `prefix`, then the parts between
/// double quotes, literal text as it is and each expression between braces.
pub fn display_interpolation(f: &mut String, prefix: &str, parts: &[InterpolateItem])
    ensures
        final(f)@ == old(f)@ + template_layout(prefix@, part_texts(parts@)),
    decreases parts@, 0int,
{
    let ghost texts = part_texts(parts@);
    f.append(prefix);
    f.append("\"");
    let mut i: usize = 0;
    while i < parts.len()
        invariant
            i <= parts.len(),
            texts == part_texts(parts@),
            f@ == old(f)@ + prefix@ + "\""@ + concat(texts.take(i as int)),
        decreases parts.len() - i,
    {
        proof {
            axiom_seq_index_decreases(parts@, i as int);
            lemma_wrap_each_step(texts, i as int, Seq::empty(), Seq::empty());
        }
        match &parts[i] {
            InterpolateItem::String(s) => {
                f.append(s.as_str());
            },
            InterpolateItem::Expr(e) => {
                f.append("{");
                e.item.fmt(f);
                f.append("}");
            },
        }
        i += 1;
    }
    assert(texts.take(i as int) =~= texts);
    f.append("\"");
}

/// Appends a name, `separator` and the named expression to `f`.
fn fmt_named_expr(named: &NamedExpr, separator: &str, f: &mut String)
    ensures
        final(f)@ == old(f)@ + (named.name@ + separator@ + named.expr.item.text()),
    decreases named, 0int,
{
    f.append(named.name.as_str());
    f.append(separator);
    named.expr.item.fmt(f);
    assert(f@ =~= old(f)@ + (named.name@ + separator@ + named.expr.item.text()));
}

/// Appends a query to `f`: the line of its dialect, a blank line, and the
/// nodes at its top level.
fn fmt_query(query: &Query, f: &mut String)
    ensures
        final(f)@ == old(f)@ + ("prql dialect: "@ + query.dialect.text() + "\n\n"@ + concat(
            top_level_texts(query.nodes@),
        )),
    decreases query, 0int,
{
    f.append("prql dialect: ");
    f.append(query.dialect.as_str());
    f.append("\n\n");
    fmt_top_level(&query.nodes, f);
    assert(f@ =~= old(f)@ + ("prql dialect: "@ + query.dialect.text() + "\n\n"@ + concat(
        top_level_texts(query.nodes@),
    )));
}

impl Pipeline {
    /// Appends the stages to `f` on one line, with ` | ` between them.
    pub fn fmt_inline(&self, f: &mut String)
        ensures
            final(f)@ == old(f)@ + inline_stages(node_texts(self.nodes@)),
        decreases self, 0int,
    {
        fmt_joined(&self.nodes, " | ", f);
    }

    /// Appends the stages to `f` as a block: a line break, then each stage
    /// on a line of its own, indented by two blanks.
    pub fn fmt_block(&self, f: &mut String)
        ensures
            final(f)@ == old(f)@ + block_stages(node_texts(self.nodes@)),
        decreases self, 0int,
    {
        f.append("\n");
        fmt_each(&self.nodes, "  ", "\n", f);
        assert(f@ =~= old(f)@ + block_stages(node_texts(self.nodes@)));
    }
}

/// Appends a pipeline to `f`, between parentheses: a single stage inline,
/// two or more stages as a block.
fn fmt_pipeline(pipeline: &Pipeline, f: &mut String)
    ensures
        final(f)@ == old(f)@ + pipeline_layout(node_texts(pipeline.nodes@)),
    decreases pipeline, 1int,
{
    f.append("(");
    match pipeline.nodes.len() {
        0 => {},
        1 => {
            pipeline.fmt_inline(f);
        },
        _ => {
            pipeline.fmt_block(f);
        },
    }
    f.append(")");
    assert(f@ =~= old(f)@ + pipeline_layout(node_texts(pipeline.nodes@)));
}

/// Appends the stub of a transform to `f`: the name of its kind and
/// ` <unimplemented>`.
fn fmt_transform(transform: &Transform, f: &mut String)
    ensures
        final(f)@ == old(f)@ + (transform.kind_name() + " <unimplemented>"@),
{
    f.append(transform.as_ref());
    f.append(" <unimplemented>");
    assert(f@ =~= old(f)@ + (transform.kind_name() + " <unimplemented>"@));
}

/// Appends a function definition to `f`.
fn fmt_func_def(func_def: &FuncDef, f: &mut String)
    ensures
        final(f)@ == old(f)@ + ("func "@ + func_def.name@ + concat(
            param_texts(func_def.positional_params@),
        ) + concat(param_texts(func_def.named_params@)) + " = "@ + func_def.body.item.text()
            + "\n\n"@),
    decreases func_def, 0int,
{
    f.append("func ");
    f.append(func_def.name.as_str());
    fmt_params(&func_def.positional_params, f);
    fmt_params(&func_def.named_params, f);
    f.append(" = ");
    func_def.body.item.fmt(f);
    f.append("\n\n");
    assert(f@ =~= old(f)@ + ("func "@ + func_def.name@ + concat(
        param_texts(func_def.positional_params@),
    ) + concat(param_texts(func_def.named_params@)) + " = "@ + func_def.body.item.text()
        + "\n\n"@));
}

/// Appends a table definition to `f`.
fn fmt_table(table: &Table, f: &mut String)
    ensures
        final(f)@ == old(f)@ + ("table "@ + table.name@ + " = "@ + table.pipeline.item.text()
            + "\n\n"@),
    decreases table, 0int,
{
    f.append("table ");
    f.append(table.name.as_str());
    f.append(" = ");
    table.pipeline.item.fmt(f);
    f.append("\n\n");
    assert(f@ =~= old(f)@ + ("table "@ + table.name@ + " = "@ + table.pipeline.item.text()
        + "\n\n"@));
}

/// Appends a list to `f`.
fn fmt_list(nodes: &Vec<Node>, f: &mut String)
    ensures
        final(f)@ == old(f)@ + list_layout(node_texts(nodes@)),
    decreases nodes, 1int,
{
    if nodes.len() == 0 {
        f.append("[]");
    } else if nodes.len() == 1 {
        proof {
            axiom_vec_index_decreases(*nodes, 0);
        }
        f.append("[");
        nodes[0].item.fmt(f);
        f.append("]");
        assert(node_texts(nodes@)[0] == nodes@[0].item.text());
    } else {
        f.append("[\n");
        fmt_each(nodes, "  ", ",\n", f);
        f.append("]");
    }
    assert(f@ =~= old(f)@ + list_layout(node_texts(nodes@)));
}

/// Appends the text of a bound to `f`, or nothing where there is none.
fn fmt_bound(bound: &Option<Box<Node>>, f: &mut String)
    ensures
        final(f)@ == old(f)@ + bound_text(*bound),
    decreases bound, 0int,
{
    if let Some(node) = bound {
        node.item.fmt(f);
    }
    assert(f@ =~= old(f)@ + bound_text(*bound));
}

/// Appends a range to `f`: the bounds that it has, around `..`.
fn fmt_range(r: &Range, f: &mut String)
    ensures
        final(f)@ == old(f)@ + (bound_text(r.start) + ".."@ + bound_text(r.end)),
    decreases r, 0int,
{
    fmt_bound(&r.start, f);
    f.append("..");
    fmt_bound(&r.end, f);
    assert(f@ =~= old(f)@ + (bound_text(r.start) + ".."@ + bound_text(r.end)));
}

/// Appends a unary expression to `f`: the operator's prefix, then the
/// operand.
fn fmt_unary(op: &UnOp, expr: &Node, f: &mut String)
    ensures
        final(f)@ == old(f)@ + (op.prefix() + expr.item.text()),
    decreases expr, 0int,
{
    match op {
        UnOp::Neg => {
            f.append("!");
        },
        UnOp::Not => {
            f.append("not ");
        },
    }
    expr.item.fmt(f);
    assert(f@ =~= old(f)@ + (op.prefix() + expr.item.text()));
}

/// Appends a function call to `f`: the function, the named arguments, the
/// positional arguments.
fn fmt_func_call(func_call: &FuncCall, f: &mut String)
    ensures
        final(f)@ == old(f)@ + (func_call.name.item.text() + concat(
            named_arg_texts(func_call.named_args@),
        ) + wrap_each(node_texts(func_call.args@), " "@, Seq::empty())),
    decreases func_call, 0int,
{
    func_call.name.item.fmt(f);
    fmt_named_args(&func_call.named_args, f);
    proof {
        reveal_strlit("");
        assert(""@ =~= Seq::<char>::empty());
    }
    fmt_each(&func_call.args, " ", "", f);
    assert(f@ =~= old(f)@ + (func_call.name.item.text() + concat(
        named_arg_texts(func_call.named_args@),
    ) + wrap_each(node_texts(func_call.args@), " "@, Seq::empty())));
}

/// Appends an interval to `f`: the count, then the unit.
fn fmt_interval(interval: &Interval, f: &mut String)
    ensures
        final(f)@ == old(f)@ + (int_text(interval.n as int) + interval.unit@),
{
    push_int(f, interval.n);
    f.append(interval.unit.as_str());
    assert(f@ =~= old(f)@ + (int_text(interval.n as int) + interval.unit@));
}

/// Appends a type to `f`, between angle brackets.
fn fmt_type(ty: &Ty, f: &mut String)
    ensures
        final(f)@ == old(f)@ + ("<"@ + ty.text() + ">"@),
{
    f.append("<");
    ty.fmt(f);
    f.append(">");
    assert(f@ =~= old(f)@ + ("<"@ + ty.text() + ">"@));
}

impl Item {
    /// Appends the item's text to `f`.
    pub fn fmt(&self, f: &mut String)
        ensures
            final(f)@ == old(f)@ + self.text(),
        decreases self, 0int,
    {
        match self {
            Item::Empty => {
                f.append("()");
            },
            Item::Ident(s) => {
                f.append(s.as_str());
            },
            Item::Assign(ne) => {
                fmt_named_expr(ne, " = ", f);
            },
            Item::NamedArg(ne) => {
                fmt_named_expr(ne, ":", f);
            },
            Item::Query(query) => {
                fmt_query(query, f);
            },
            Item::Pipeline(pipeline) => {
                fmt_pipeline(pipeline, f);
            },
            Item::Transform(transform) => {
                fmt_transform(transform, f);
            },
            Item::FuncDef(func_def) => {
                fmt_func_def(func_def, f);
            },
            Item::Table(table) => {
                fmt_table(table, f);
            },
            Item::List(nodes) => {
                fmt_list(nodes, f);
            },
            Item::Range(r) => {
                fmt_range(r, f);
            },
            Item::Binary { op, left, right } => {
                left.item.fmt(f);
                f.append(" ");
                f.append(op.as_str());
                f.append(" ");
                right.item.fmt(f);
                assert(f@ =~= old(f)@ + (left.item.text() + " "@ + op.text() + " "@
                    + right.item.text()));
            },
            Item::Unary { op, expr } => {
                fmt_unary(op, expr, f);
            },
            Item::FuncCall(func_call) => {
                fmt_func_call(func_call, f);
            },
            Item::FuncCurry(_) => {
                f.append("(func ? -> ?)");
            },
            Item::SString(parts) => {
                proof {
                    axiom_vec_decreases_to_view(*parts);
                }
                display_interpolation(f, "s", parts.as_slice());
            },
            Item::FString(parts) => {
                proof {
                    axiom_vec_decreases_to_view(*parts);
                }
                display_interpolation(f, "f", parts.as_slice());
            },
            Item::Interval(i) => {
                fmt_interval(i, f);
            },
            Item::Windowed(w) => {
                let dump = debug_string(&w.expr);
                f.append(dump.as_str());
            },
            Item::Type(typ) => {
                fmt_type(typ, f);
            },
            Item::Literal(literal) => {
                literal.fmt(f);
            },
        }
    }

    /// The item's text.
    pub fn to_string(&self) -> (s: String)
        ensures
            s@ == self.text(),
    {
        let mut s = String::new();
        self.fmt(&mut s);
        assert(s@ =~= self.text());
        s
    }
}

} // verus!
