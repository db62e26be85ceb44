//! Which items a rendered item shows, and that the text of each of them
//! stands, whole, in the rendered text.

use vstd::prelude::*;
use vstd::seq::axiom_seq_index_decreases;
use vstd::std_specs::vec::axiom_vec_decreases_to_view;
use crate::item::{FuncCall, InterpolateItem, Item, NamedExpr, Node, Range};
use crate::layout::{
    concat, lemma_occurs_in_concat, lemma_occurs_in_list, lemma_occurs_in_pipeline,
    lemma_occurs_in_template,
};
use crate::render::{
    bound_text, named_arg_texts, node_texts, param_texts, part_texts, top_level_texts,
};
use crate::text::{
    lemma_occurs_in_itself, lemma_occurs_in_wider, lemma_occurs_in_wrap_each, occurs_in,
    wrap_each,
};

verus! {

/// One of the nodes shows `inner`.
pub open spec fn any_shows(nodes: Seq<Node>, inner: Item) -> bool
    decreases nodes,
{
    exists|i: int| 0 <= i < nodes.len() && (#[trigger] nodes[i]).item.shows(inner)
}

/// The value of one of the named arguments shows `inner`.
pub open spec fn any_named_shows(named: Seq<NamedExpr>, inner: Item) -> bool
    decreases named,
{
    exists|i: int| 0 <= i < named.len() && (#[trigger] named[i]).expr.item.shows(inner)
}

/// An expression among the parts of a string template shows `inner`.
pub open spec fn any_part_shows(parts: Seq<InterpolateItem>, inner: Item) -> bool
    decreases parts,
{
    exists|i: int|
        0 <= i < parts.len() && (match #[trigger] parts[i] {
            InterpolateItem::String(_) => false,
            InterpolateItem::Expr(e) => e.item.shows(inner),
        })
}

/// One of the nodes at the top level of a query shows `inner`: a pipeline
/// there by one of its stages, any other node by itself.
pub open spec fn top_level_shows(nodes: Seq<Node>, inner: Item) -> bool
    decreases nodes,
{
    exists|i: int|
        0 <= i < nodes.len() && (match (#[trigger] nodes[i]).item {
            Item::Pipeline(p) => any_shows(p.nodes@, inner),
            other => other.shows(inner),
        })
}

/// The bound is there and shows `inner`.
pub open spec fn bound_shows(bound: Option<Box<Node>>, inner: Item) -> bool
    decreases bound,
{
    match bound {
        Some(node) => node.item.shows(inner),
        None => false,
    }
}

impl Item {
    /// `inner` is this item, or is shown by one of the items that this
    /// item renders in full. A transform, a curried call and a windowed
    /// expression render none of what they hold, and a query renders a
    /// pipeline at its top level by its stages alone.
    pub open spec fn shows(self, inner: Item) -> bool
        decreases self,
    {
        self == inner || match self {
            Item::Assign(named) | Item::NamedArg(named) => named.expr.item.shows(inner),
            Item::Query(query) => top_level_shows(query.nodes@, inner),
            Item::Pipeline(pipeline) => any_shows(pipeline.nodes@, inner),
            Item::List(nodes) => any_shows(nodes@, inner),
            Item::Range(range) => bound_shows(range.start, inner) || bound_shows(
                range.end,
                inner,
            ),
            Item::Binary { left, op, right } => left.item.shows(inner) || right.item.shows(inner),
            Item::Unary { op, expr } => expr.item.shows(inner),
            Item::FuncDef(def) => def.body.item.shows(inner),
            Item::FuncCall(call) => call.name.item.shows(inner) || any_named_shows(
                call.named_args@,
                inner,
            ) || any_shows(call.args@, inner),
            Item::Table(table) => table.pipeline.item.shows(inner),
            Item::SString(parts) | Item::FString(parts) => any_part_shows(parts@, inner),
            _ => false,
        }
    }
}

/// Where one of the nodes shows `inner`, the text of `inner` stands in
/// the text of one of the nodes.
proof fn lemma_shown_in_nodes(nodes: Seq<Node>, inner: Item) -> (i: int)
    requires
        any_shows(nodes, inner),
    ensures
        0 <= i < nodes.len(),
        occurs_in(inner.text(), node_texts(nodes)[i]),
    decreases nodes, 0int,
{
    let i = choose|i: int| 0 <= i < nodes.len() && (#[trigger] nodes[i]).item.shows(inner);
    axiom_seq_index_decreases(nodes, i);
    lemma_shown_text_occurs(nodes[i].item, inner);
    i
}

/// Where the value of a named argument shows `inner`, the text of `inner`
/// stands in the text of one of the named arguments.
proof fn lemma_shown_in_named(named: Seq<NamedExpr>, inner: Item) -> (i: int)
    requires
        any_named_shows(named, inner),
    ensures
        0 <= i < named.len(),
        occurs_in(inner.text(), named_arg_texts(named)[i]),
    decreases named, 0int,
{
    let i = choose|i: int| 0 <= i < named.len() && (#[trigger] named[i]).expr.item.shows(inner);
    axiom_seq_index_decreases(named, i);
    let value = named[i].expr.item;
    lemma_shown_text_occurs(value, inner);
    lemma_occurs_in_wider(inner.text(), value.text(), " "@ + named[i].name@ + ": "@, Seq::empty());
    assert(named_arg_texts(named)[i] =~= (" "@ + named[i].name@ + ": "@) + value.text() + Seq::<
        char,
    >::empty());
    i
}

/// Where an expression of a string template shows `inner`, the text of
/// `inner` stands in the text of one of the parts.
proof fn lemma_shown_in_parts(parts: Seq<InterpolateItem>, inner: Item) -> (i: int)
    requires
        any_part_shows(parts, inner),
    ensures
        0 <= i < parts.len(),
        occurs_in(inner.text(), part_texts(parts)[i]),
    decreases parts, 0int,
{
    let i = choose|i: int|
        0 <= i < parts.len() && (match #[trigger] parts[i] {
            InterpolateItem::String(_) => false,
            InterpolateItem::Expr(e) => e.item.shows(inner),
        });
    axiom_seq_index_decreases(parts, i);
    match parts[i] {
        InterpolateItem::String(_) => {},
        InterpolateItem::Expr(e) => {
            lemma_shown_text_occurs(e.item, inner);
            lemma_occurs_in_wider(inner.text(), e.item.text(), "{"@, "}"@);
        },
    }
    i
}

/// Where a node at the top level of a query shows `inner`, the text of
/// `inner` stands in the text of one of these nodes.
proof fn lemma_shown_at_top_level(nodes: Seq<Node>, inner: Item) -> (i: int)
    requires
        top_level_shows(nodes, inner),
    ensures
        0 <= i < nodes.len(),
        occurs_in(inner.text(), top_level_texts(nodes)[i]),
    decreases nodes, 0int,
{
    let i = choose|i: int|
        0 <= i < nodes.len() && (match (#[trigger] nodes[i]).item {
            Item::Pipeline(p) => any_shows(p.nodes@, inner),
            other => other.shows(inner),
        });
    axiom_seq_index_decreases(nodes, i);
    match nodes[i].item {
        Item::Pipeline(p) => {
            axiom_vec_decreases_to_view(p.nodes);
            let j = lemma_shown_in_nodes(p.nodes@, inner);
            lemma_occurs_in_wrap_each(
                inner.text(),
                node_texts(p.nodes@),
                j,
                Seq::empty(),
                "\n"@,
            );
        },
        other => {
            lemma_shown_text_occurs(other, inner);
        },
    }
    i
}

/// Where a function call shows `inner`, the text of `inner` stands in the
/// call's text.
proof fn lemma_shown_in_call(call: FuncCall, inner: Item)
    requires
        Item::FuncCall(call) != inner,
        Item::FuncCall(call).shows(inner),
    ensures
        occurs_in(inner.text(), Item::FuncCall(call).text()),
    decreases call, 0int,
{
    let part = inner.text();
    let name = call.name.item.text();
    let named = concat(named_arg_texts(call.named_args@));
    let args = wrap_each(node_texts(call.args@), " "@, Seq::empty());
    if call.name.item.shows(inner) {
        lemma_shown_text_occurs(call.name.item, inner);
        lemma_occurs_in_wider(part, name, Seq::empty(), named + args);
        assert(Item::FuncCall(call).text() =~= Seq::<char>::empty() + name + (named + args));
    } else if any_named_shows(call.named_args@, inner) {
        axiom_vec_decreases_to_view(call.named_args);
        let i = lemma_shown_in_named(call.named_args@, inner);
        lemma_occurs_in_concat(part, named_arg_texts(call.named_args@), i);
        lemma_occurs_in_wider(part, named, name, args);
    } else {
        axiom_vec_decreases_to_view(call.args);
        let i = lemma_shown_in_nodes(call.args@, inner);
        lemma_occurs_in_wrap_each(part, node_texts(call.args@), i, " "@, Seq::empty());
        lemma_occurs_in_wider(part, args, name + named, Seq::empty());
        assert(Item::FuncCall(call).text() =~= (name + named) + args + Seq::<char>::empty());
    }
}

/// Where a range shows `inner`, the text of `inner` stands in the range's
/// text.
proof fn lemma_shown_in_range(range: Range, inner: Item)
    requires
        bound_shows(range.start, inner) || bound_shows(range.end, inner),
    ensures
        occurs_in(inner.text(), Item::Range(range).text()),
    decreases range, 0int,
{
    let part = inner.text();
    let start = bound_text(range.start);
    let end = bound_text(range.end);
    if bound_shows(range.start, inner) {
        lemma_shown_text_occurs(range.start->0.item, inner);
        lemma_occurs_in_wider(part, start, Seq::empty(), ".."@ + end);
        assert(Item::Range(range).text() =~= Seq::<char>::empty() + start + (".."@ + end));
    } else {
        lemma_shown_text_occurs(range.end->0.item, inner);
        lemma_occurs_in_wider(part, end, start + ".."@, Seq::empty());
        assert(Item::Range(range).text() =~= (start + ".."@) + end + Seq::<char>::empty());
    }
}

/// The text of every item that an item shows stands, whole and in one
/// piece, in the item's own text. With [`crate::laws::lemma_delimiters`]:
/// the rendered text holds, for each list, pipeline, string template and
/// type that it shows, the opening delimiter, what stands between, and the
/// closing delimiter.
pub proof fn lemma_shown_text_occurs(outer: Item, inner: Item)
    requires
        outer.shows(inner),
    ensures
        occurs_in(inner.text(), outer.text()),
    decreases outer, 1int,
{
    let part = inner.text();
    if outer == inner {
        lemma_occurs_in_itself(part);
    } else {
        match outer {
            Item::Assign(named) => {
                let value = named.expr.item.text();
                lemma_shown_text_occurs(named.expr.item, inner);
                lemma_occurs_in_wider(part, value, named.name@ + " = "@, Seq::empty());
                assert(outer.text() =~= (named.name@ + " = "@) + value + Seq::<char>::empty());
            },
            Item::NamedArg(named) => {
                let value = named.expr.item.text();
                lemma_shown_text_occurs(named.expr.item, inner);
                lemma_occurs_in_wider(part, value, named.name@ + ":"@, Seq::empty());
                assert(outer.text() =~= (named.name@ + ":"@) + value + Seq::<char>::empty());
            },
            Item::Query(query) => {
                axiom_vec_decreases_to_view(query.nodes);
                let i = lemma_shown_at_top_level(query.nodes@, inner);
                let body = concat(top_level_texts(query.nodes@));
                let header = "prql dialect: "@ + query.dialect.text() + "\n\n"@;
                lemma_occurs_in_concat(part, top_level_texts(query.nodes@), i);
                lemma_occurs_in_wider(part, body, header, Seq::empty());
                assert(outer.text() =~= header + body + Seq::<char>::empty());
            },
            Item::Pipeline(pipeline) => {
                axiom_vec_decreases_to_view(pipeline.nodes);
                let i = lemma_shown_in_nodes(pipeline.nodes@, inner);
                lemma_occurs_in_pipeline(part, node_texts(pipeline.nodes@), i);
            },
            Item::List(nodes) => {
                axiom_vec_decreases_to_view(nodes);
                let i = lemma_shown_in_nodes(nodes@, inner);
                lemma_occurs_in_list(part, node_texts(nodes@), i);
            },
            Item::Range(range) => {
                lemma_shown_in_range(range, inner);
            },
            Item::Binary { left, op, right } => {
                if left.item.shows(inner) {
                    lemma_shown_text_occurs(left.item, inner);
                    lemma_occurs_in_wider(
                        part,
                        left.item.text(),
                        Seq::empty(),
                        " "@ + op.text() + " "@ + right.item.text(),
                    );
                    assert(outer.text() =~= Seq::<char>::empty() + left.item.text() + (" "@
                        + op.text() + " "@ + right.item.text()));
                } else {
                    lemma_shown_text_occurs(right.item, inner);
                    lemma_occurs_in_wider(
                        part,
                        right.item.text(),
                        left.item.text() + " "@ + op.text() + " "@,
                        Seq::empty(),
                    );
                    assert(outer.text() =~= (left.item.text() + " "@ + op.text() + " "@)
                        + right.item.text() + Seq::<char>::empty());
                }
            },
            Item::Unary { op, expr } => {
                lemma_shown_text_occurs(expr.item, inner);
                lemma_occurs_in_wider(part, expr.item.text(), op.prefix(), Seq::empty());
                assert(outer.text() =~= op.prefix() + expr.item.text() + Seq::<char>::empty());
            },
            Item::FuncDef(def) => {
                let head = "func "@ + def.name@ + concat(param_texts(def.positional_params@))
                    + concat(param_texts(def.named_params@)) + " = "@;
                lemma_shown_text_occurs(def.body.item, inner);
                lemma_occurs_in_wider(part, def.body.item.text(), head, "\n\n"@);
            },
            Item::FuncCall(call) => {
                lemma_shown_in_call(call, inner);
            },
            Item::Table(table) => {
                let head = "table "@ + table.name@ + " = "@;
                lemma_shown_text_occurs(table.pipeline.item, inner);
                lemma_occurs_in_wider(part, table.pipeline.item.text(), head, "\n\n"@);
            },
            Item::SString(parts) => {
                axiom_vec_decreases_to_view(parts);
                let i = lemma_shown_in_parts(parts@, inner);
                lemma_occurs_in_template(part, "s"@, part_texts(parts@), i);
            },
            Item::FString(parts) => {
                axiom_vec_decreases_to_view(parts);
                let i = lemma_shown_in_parts(parts@, inner);
                lemma_occurs_in_template(part, "f"@, part_texts(parts@), i);
            },
            _ => {},
        }
    }
}

} // verus!
