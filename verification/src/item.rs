//! The nodes of the syntax tree.

use vstd::prelude::*;
use vstd::std_specs::convert::FromSpecImpl;
use crate::literal::Literal;
use crate::ops::{BinOp, UnOp};
use crate::query::{ColumnSort, FuncDef, Query, Table, Transform, WindowKind};
use crate::types::Ty;

verus! {

/// A name.
pub type Ident = String;

/// The place of a node in the source text.
#[derive(Debug, PartialEq, Eq, Clone, Copy)]
pub struct Span {
    pub start: usize,
    pub end: usize,
}

/// One node of the tree: an item, with where it stood in the source and
/// where its name was declared.
#[derive(Debug, PartialEq)]
pub struct Node {
    pub item: Item,
    pub span: Option<Span>,
    pub declared_at: Option<usize>,
}

/// Everything that a piece of source can be.
#[derive(Debug, PartialEq)]
pub enum Item {
    Empty,
    Ident(Ident),
    Literal(Literal),
    Assign(NamedExpr),
    NamedArg(NamedExpr),
    Query(Query),
    Pipeline(Pipeline),
    Transform(Transform),
    List(Vec<Node>),
    Range(Range),
    Binary { left: Box<Node>, op: BinOp, right: Box<Node> },
    Unary { op: UnOp, expr: Box<Node> },
    FuncDef(FuncDef),
    FuncCall(FuncCall),
    FuncCurry(FuncCurry),
    Type(Ty),
    Table(Table),
    SString(Vec<InterpolateItem>),
    FString(Vec<InterpolateItem>),
    Interval(Interval),
    Windowed(Windowed),
}

/// An element of a list.
#[derive(Debug, PartialEq)]
pub struct ListItem(pub Node);

/// A function call with all of its arguments.
///
/// The named arguments stand in the order in which the call gave them, and
/// no name occurs twice among them: see [`FuncCall::names_are_unique`].
#[derive(Debug, PartialEq)]
pub struct FuncCall {
    pub name: Box<Node>,
    pub args: Vec<Node>,
    pub named_args: Vec<NamedExpr>,
}

/// A function call that still lacks positional arguments.
#[derive(Debug, PartialEq)]
pub struct FuncCurry {
    pub def_id: usize,
    pub args: Vec<Node>,
    /// In the order of the definition's named parameters; `None` where the
    /// call has not given one yet.
    pub named_args: Vec<Option<Node>>,
}

/// An expression evaluated over a window of rows.
#[derive(Debug, PartialEq)]
pub struct Windowed {
    pub expr: Box<Node>,
    pub group: Vec<Node>,
    pub sort: Vec<ColumnSort<Node>>,
    pub window: (WindowKind, Range),
}

/// A value and the transforms that it runs through.
#[derive(Debug, PartialEq)]
pub struct Pipeline {
    pub nodes: Vec<Node>,
}

/// A name and the expression that it stands for.
#[derive(Debug, PartialEq)]
pub struct NamedExpr {
    pub name: Ident,
    pub expr: Box<Node>,
}

/// A part of a string template.
#[derive(Debug, PartialEq)]
pub enum InterpolateItem {
    String(String),
    Expr(Box<Node>),
}

/// A range that includes both of its bounds. A missing bound leaves the
/// range open on that side.
#[derive(Debug, PartialEq)]
pub struct Range<T = Box<Node>> {
    pub start: Option<T>,
    pub end: Option<T>,
}

/// A span of time: a count and its unit.
#[derive(Debug, PartialEq, Clone)]
pub struct Interval {
    pub n: i64,
    pub unit: String,
}

impl Node {
    /// The node that holds `item` and knows nothing of its place.
    pub open spec fn of_item(item: Item) -> Node {
        Node { item, span: None, declared_at: None }
    }
}

impl FromSpecImpl<Item> for Node {
    open spec fn obeys_from_spec() -> bool {
        true
    }

    open spec fn from_spec(item: Item) -> Node {
        Node::of_item(item)
    }
}

impl From<Item> for Node {
    /// A node that holds `item` and knows nothing of its place.
    fn from(item: Item) -> (node: Node) {
        Node { item, span: None, declared_at: None }
    }
}

impl FromSpecImpl<Vec<Node>> for Pipeline {
    open spec fn obeys_from_spec() -> bool {
        true
    }

    open spec fn from_spec(nodes: Vec<Node>) -> Pipeline {
        Pipeline { nodes }
    }
}

impl From<Vec<Node>> for Pipeline {
    /// The pipeline of the given stages.
    fn from(nodes: Vec<Node>) -> (pipeline: Pipeline) {
        Pipeline { nodes }
    }
}

impl<T> Default for Range<T> {
    /// The range without bounds.
    fn default() -> (range: Self)
        ensures
            range == (Range::<T> { start: None, end: None }),
    {
        Range { start: None, end: None }
    }
}

impl FuncCall {
    /// A call of `name` without arguments.
    pub fn without_args(name: Node) -> (call: FuncCall)
        ensures
            *call.name == name,
            call.args@ == Seq::<Node>::empty(),
            call.named_args@ == Seq::<NamedExpr>::empty(),
            call.names_are_unique(),
    {
        FuncCall { name: Box::new(name), args: Vec::new(), named_args: Vec::new() }
    }

    /// No name occurs twice among the named arguments.
    pub open spec fn names_are_unique(self) -> bool {
        forall|i: int, j: int|
            0 <= i < j < self.named_args@.len() ==> (#[trigger] self.named_args@[i]).name@ != (
            #[trigger] self.named_args@[j]).name@
    }

    /// The place of the first named argument with the name `name`, or the
    /// number of named arguments where there is none.
    pub open spec fn place_of(self, name: Seq<char>) -> int {
        FuncCall::first_named(self.named_args@, name, 0)
    }

    /// The first place from `from` on at which `named` holds the name
    /// `name`, or the length of `named`.
    pub open spec fn first_named(named: Seq<NamedExpr>, name: Seq<char>, from: int) -> int
        decreases named.len() - from,
    {
        if from < 0 || from >= named.len() {
            named.len() as int
        } else if named[from].name@ == name {
            from
        } else {
            FuncCall::first_named(named, name, from + 1)
        }
    }

    /// The value of the named argument `name`: that of the first one with
    /// this name, `None` where there is none.
    pub fn named_arg(&self, name: &Ident) -> (value: Option<&Node>)
        ensures
            value == (if self.place_of(name@) < self.named_args@.len() {
                Some(&*self.named_args@[self.place_of(name@)].expr)
            } else {
                None
            }),
    {
        let mut i: usize = 0;
        while i < self.named_args.len()
            invariant
                i <= self.named_args.len(),
                self.place_of(name@) == FuncCall::first_named(self.named_args@, name@, i as int),
            decreases self.named_args.len() - i,
        {
            if self.named_args[i].name == *name {
                return Some(&*self.named_args[i].expr);
            }
            i += 1;
        }
        None
    }

    /// Gives the named argument `name` the value `value`. Where the call
    /// has such an argument already, its first one keeps its place, takes
    /// the new value and hands back the old one; else the argument goes
    /// behind the others.
    pub fn insert_named_arg(&mut self, name: Ident, value: Node) -> (previous: Option<Node>)
        ensures
            final(self).name == old(self).name,
            final(self).args == old(self).args,
            old(self).place_of(name@) < old(self).named_args@.len() ==> {
                let place = old(self).place_of(name@);
                &&& previous == Some(*old(self).named_args@[place].expr)
                &&& final(self).named_args@ == old(self).named_args@.update(
                    place,
                    NamedExpr { name: old(self).named_args@[place].name, expr: Box::new(value) },
                )
            },
            old(self).place_of(name@) >= old(self).named_args@.len() ==> {
                &&& previous is None
                &&& final(self).named_args@ == old(self).named_args@.push(
                    NamedExpr { name, expr: Box::new(value) },
                )
            },
            old(self).names_are_unique() ==> final(self).names_are_unique(),
    {
        let mut i: usize = 0;
        while i < self.named_args.len()
            invariant
                *self == *old(self),
                i <= self.named_args.len(),
                self.place_of(name@) == FuncCall::first_named(self.named_args@, name@, i as int),
                forall|j: int| 0 <= j < i ==> (#[trigger] self.named_args@[j]).name@ != name@,
            decreases self.named_args.len() - i,
        {
            if self.named_args[i].name == name {
                let replaced = self.named_args.remove(i);
                self.named_args.insert(i, NamedExpr { name: replaced.name, expr: Box::new(value) });
                assert(self.named_args@ =~= old(self).named_args@.update(
                    i as int,
                    NamedExpr { name: old(self).named_args@[i as int].name, expr: Box::new(value) },
                ));
                return Some(*replaced.expr);
            }
            i += 1;
        }
        self.named_args.push(NamedExpr { name, expr: Box::new(value) });
        None
    }
}

impl Windowed {
    /// `node` over `window`, neither grouped nor sorted.
    pub fn new(node: Node, window: (WindowKind, Range)) -> (windowed: Windowed)
        ensures
            *windowed.expr == node,
            windowed.group@ == Seq::<Node>::empty(),
            windowed.sort@ == Seq::<ColumnSort<Node>>::empty(),
            windowed.window == window,
    {
        Windowed { expr: Box::new(node), group: Vec::new(), sort: Vec::new(), window }
    }
}

} // verus!
