//! What holds of rendering and of the conversions, whatever the tree.

use vstd::prelude::*;
use crate::convert::TypeMismatch;
use crate::item::{Item, Node, Range};
use crate::layout::{concat, list_layout, pipeline_layout};
use crate::ops::UnOp;
use crate::query::FuncDef;
use crate::render::{bound_text, param_texts};
use crate::shown::lemma_shown_text_occurs;
use crate::text::{occurs_in, wrap_each};

verus! {

/// `text` begins with `open` and ends with `close`, and the two do not
/// overlap.
pub open spec fn is_enclosed(text: Seq<char>, open: Seq<char>, close: Seq<char>) -> bool {
    &&& open.len() + close.len() <= text.len()
    &&& text.subrange(0, open.len() as int) == open
    &&& text.subrange(text.len() - close.len(), text.len() as int) == close
}

/// A range made of integers converts back to a range of the same integers.
pub proof fn lemma_from_ints_round_trip(start: Option<i64>, end: Option<i64>)
    ensures
        (Range::<Box<Node>> { start: Range::int_node(start), end: Range::int_node(end) }).as_ints()
            == Ok::<Range<i64>, TypeMismatch>(Range { start, end }),
{
}

/// The range without bounds renders as two dots and nothing else.
pub proof fn lemma_unbounded_text()
    ensures
        Item::Range(Range { start: None, end: None }).text() == seq!['.', '.'],
{
    reveal_strlit("..");
    assert(bound_text(None) =~= Seq::<char>::empty());
    assert(Item::Range(Range { start: None, end: None }).text() =~= seq!['.', '.']);
}

/// Whatever stands inside them, the text of a list stands between square
/// brackets, that of a pipeline between parentheses, that of a string
/// template between its prefix with a double quote and a double quote, and
/// that of a type between angle brackets.
pub proof fn lemma_delimiters(item: Item)
    ensures
        item is List ==> is_enclosed(item.text(), seq!['['], seq![']']),
        item is Pipeline ==> is_enclosed(item.text(), seq!['('], seq![')']),
        item is SString ==> is_enclosed(item.text(), seq!['s', '"'], seq!['"']),
        item is FString ==> is_enclosed(item.text(), seq!['f', '"'], seq!['"']),
        item is Type ==> is_enclosed(item.text(), seq!['<'], seq!['>']),
{
    reveal_strlit("[]");
    reveal_strlit("[");
    reveal_strlit("]");
    reveal_strlit("[\n");
    reveal_strlit("(");
    reveal_strlit(")");
    reveal_strlit("s");
    reveal_strlit("f");
    reveal_strlit("\"");
    reveal_strlit("<");
    reveal_strlit(">");
    let text = item.text();
    match item {
        Item::List(_) => {
            assert(text.subrange(0, 1) =~= seq!['[']);
            assert(text.subrange(text.len() - 1, text.len() as int) =~= seq![']']);
        },
        Item::Pipeline(_) => {
            assert(text.subrange(0, 1) =~= seq!['(']);
            assert(text.subrange(text.len() - 1, text.len() as int) =~= seq![')']);
        },
        Item::SString(_) => {
            assert(text.subrange(0, 2) =~= seq!['s', '"']);
            assert(text.subrange(text.len() - 1, text.len() as int) =~= seq!['"']);
        },
        Item::FString(_) => {
            assert(text.subrange(0, 2) =~= seq!['f', '"']);
            assert(text.subrange(text.len() - 1, text.len() as int) =~= seq!['"']);
        },
        Item::Type(_) => {
            assert(text.subrange(0, 1) =~= seq!['<']);
            assert(text.subrange(text.len() - 1, text.len() as int) =~= seq!['>']);
        },
        _ => {},
    }
}

/// For every list, pipeline, string template and type that a rendered item
/// shows, the rendered text holds the text of that part in one piece, and
/// that text stands between its pair of delimiters.
pub proof fn lemma_shown_delimiters(outer: Item, inner: Item)
    requires
        outer.shows(inner),
    ensures
        occurs_in(inner.text(), outer.text()),
        inner is List ==> is_enclosed(inner.text(), seq!['['], seq![']']),
        inner is Pipeline ==> is_enclosed(inner.text(), seq!['('], seq![')']),
        inner is SString ==> is_enclosed(inner.text(), seq!['s', '"'], seq!['"']),
        inner is FString ==> is_enclosed(inner.text(), seq!['f', '"'], seq!['"']),
        inner is Type ==> is_enclosed(inner.text(), seq!['<'], seq!['>']),
{
    lemma_shown_text_occurs(outer, inner);
    lemma_delimiters(inner);
}

/// A list of one item stands on one line.
pub proof fn lemma_list_of_one(a: Seq<char>)
    ensures
        list_layout(seq![a]) == "["@ + a + "]"@,
{
}

/// A list of two items puts each on a line of its own, indented and with a
/// comma behind it.
pub proof fn lemma_list_of_two(a: Seq<char>, b: Seq<char>)
    ensures
        list_layout(seq![a, b]) == "[\n  "@ + a + ",\n  "@ + b + ",\n]"@,
{
    reveal_strlit("[\n");
    reveal_strlit("  ");
    reveal_strlit(",\n");
    reveal_strlit("]");
    reveal_strlit("[\n  ");
    reveal_strlit(",\n  ");
    reveal_strlit(",\n]");
    reveal_with_fuel(wrap_each, 3);
    let items = seq![a, b];
    assert(items.drop_last() =~= seq![a]);
    assert(seq![a].drop_last() =~= Seq::<Seq<char>>::empty());
    assert(wrap_each(seq![a], "  "@, ",\n"@) =~= "  "@ + a + ",\n"@);
    assert(wrap_each(items, "  "@, ",\n"@) =~= "  "@ + a + ",\n"@ + "  "@ + b + ",\n"@);
    assert(list_layout(items) =~= "[\n  "@ + a + ",\n  "@ + b + ",\n]"@);
}

/// A pipeline of one stage stands on one line.
pub proof fn lemma_pipeline_of_one(a: Seq<char>)
    ensures
        pipeline_layout(seq![a]) == "("@ + a + ")"@,
{
}

/// A pipeline of three stages puts each on a line of its own, indented,
/// between parentheses.
pub proof fn lemma_pipeline_of_three(a: Seq<char>, b: Seq<char>, c: Seq<char>)
    ensures
        pipeline_layout(seq![a, b, c]) == "(\n  "@ + a + "\n  "@ + b + "\n  "@ + c + "\n)"@,
{
    reveal_strlit("(");
    reveal_strlit(")");
    reveal_strlit("\n");
    reveal_strlit("  ");
    reveal_strlit("(\n  ");
    reveal_strlit("\n  ");
    reveal_strlit("\n)");
    reveal_with_fuel(wrap_each, 4);
    let stages = seq![a, b, c];
    assert(stages.drop_last() =~= seq![a, b]);
    assert(seq![a, b].drop_last() =~= seq![a]);
    assert(seq![a].drop_last() =~= Seq::<Seq<char>>::empty());
    assert(wrap_each(seq![a], "  "@, "\n"@) =~= "  "@ + a + "\n"@);
    assert(wrap_each(seq![a, b], "  "@, "\n"@) =~= "  "@ + a + "\n"@ + "  "@ + b + "\n"@);
    assert(wrap_each(stages, "  "@, "\n"@) =~= "  "@ + a + "\n"@ + "  "@ + b + "\n"@ + "  "@ + c
        + "\n"@);
    assert(pipeline_layout(stages) =~= "(\n  "@ + a + "\n  "@ + b + "\n  "@ + c + "\n)"@);
}

/// A function definition with one positional and one named parameter
/// renders as `func`, its name, the two parameters' names, `=` and the
/// body, each behind a blank, and ends in a blank line.
pub proof fn lemma_func_def_text(def: FuncDef)
    requires
        def.positional_params@.len() == 1,
        def.named_params@.len() == 1,
    ensures
        Item::FuncDef(def).text() == "func "@ + def.name@ + " "@ + def.positional_params@[0].name@
            + " "@ + def.named_params@[0].name@ + " = "@ + def.body.item.text() + "\n\n"@,
{
    reveal_with_fuel(wrap_each, 2);
    let positional = param_texts(def.positional_params@);
    let named = param_texts(def.named_params@);
    assert(positional.drop_last() =~= Seq::<Seq<char>>::empty());
    assert(named.drop_last() =~= Seq::<Seq<char>>::empty());
    assert(concat(positional) =~= " "@ + def.positional_params@[0].name@);
    assert(concat(named) =~= " "@ + def.named_params@[0].name@);
    assert(Item::FuncDef(def).text() =~= "func "@ + def.name@ + " "@
        + def.positional_params@[0].name@ + " "@ + def.named_params@[0].name@ + " = "@
        + def.body.item.text() + "\n\n"@);
}

/// A unary expression renders as its operand behind `!` where it negates,
/// and behind `not` and a blank where it inverts.
pub proof fn lemma_unary_text(op: UnOp, expr: Node)
    ensures
        (Item::Unary { op, expr: Box::new(expr) }).text() == op.prefix() + expr.item.text(),
        UnOp::Neg.prefix() == seq!['!'],
        UnOp::Not.prefix() == seq!['n', 'o', 't', ' '],
{
    reveal_strlit("!");
    reveal_strlit("not ");
    assert(UnOp::Neg.prefix() =~= seq!['!']);
    assert(UnOp::Not.prefix() =~= seq!['n', 'o', 't', ' ']);
}

} // verus!
