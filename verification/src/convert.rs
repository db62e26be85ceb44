//! Conversions that can fail: a pipeline as its transforms, and a range as
//! a range of integers.

use vstd::prelude::*;
use vstd::std_specs::convert::FromSpecImpl;
use crate::collect::try_collect;
use crate::item::{Item, Node, Pipeline, Range};
use crate::literal::Literal;
use crate::query::Transform;

verus! {

/// A conversion met an item of another kind than it needs. `found` is that
/// item.
#[derive(Debug, PartialEq)]
pub struct TypeMismatch {
    pub found: Item,
}

impl FromSpecImpl<Item> for TypeMismatch {
    open spec fn obeys_from_spec() -> bool {
        true
    }

    open spec fn from_spec(item: Item) -> TypeMismatch {
        TypeMismatch { found: item }
    }
}

impl From<Item> for TypeMismatch {
    /// The failure to convert `item`.
    fn from(item: Item) -> (error: TypeMismatch) {
        TypeMismatch { found: item }
    }
}

impl TypeMismatch {
    /// The message of the failure: the text of the item that was found,
    /// between backquotes.
    pub open spec fn message_text(self) -> Seq<char> {
        "Failed to convert `"@ + self.found.text() + "`"@
    }

    /// The message of the failure.
    pub fn message(&self) -> (s: String)
        ensures
            s@ == self.message_text(),
    {
        let mut s = String::from_str("Failed to convert `");
        self.found.fmt(&mut s);
        s.append("`");
        s
    }
}

impl Item {
    /// The literal of a literal item; any other item comes back unchanged
    /// as the error.
    pub fn into_literal(self) -> (res: Result<Literal, Item>)
        ensures
            res == (match self {
                Item::Literal(literal) => Ok::<Literal, Item>(literal),
                _ => Err::<Literal, Item>(self),
            }),
    {
        match self {
            Item::Literal(literal) => Ok(literal),
            other => Err(other),
        }
    }

    /// The transform of a transform item; any other item comes back
    /// unchanged as the error.
    pub fn into_transform(self) -> (res: Result<Transform, Item>)
        ensures
            res == (match self {
                Item::Transform(transform) => Ok::<Transform, Item>(transform),
                _ => Err::<Transform, Item>(self),
            }),
    {
        match self {
            Item::Transform(transform) => Ok(transform),
            other => Err(other),
        }
    }

    /// The transform of a transform item, and `None` for any other item.
    pub fn as_transform(&self) -> (res: Option<&Transform>)
        ensures
            res == (match *self {
                Item::Transform(transform) => Some(&transform),
                _ => None::<&Transform>,
            }),
    {
        match self {
            Item::Transform(transform) => Some(transform),
            _ => None,
        }
    }
}

/// The integer of a bound: `Ok(None)` for a missing bound, the integer of
/// an integer literal, and for any other bound its item as the error.
pub open spec fn int_bound(bound: Option<Box<Node>>) -> Result<Option<i64>, Item> {
    match bound {
        None => Ok(None),
        Some(node) => match node.item {
            Item::Literal(Literal::Integer(i)) => Ok(Some(i)),
            other => Err(other),
        },
    }
}

/// The integer of a bound.
fn cast_bound(bound: Node) -> (res: Result<i64, Item>)
    ensures
        res == (match bound.item {
            Item::Literal(Literal::Integer(i)) => Ok::<i64, Item>(i),
            other => Err::<i64, Item>(other),
        }),
{
    match bound.item.into_literal() {
        Ok(literal) => match literal.into_integer() {
            Ok(i) => Ok(i),
            Err(other) => Err(Item::Literal(other)),
        },
        Err(other) => Err(other),
    }
}

impl Range {
    /// The range without bounds.
    pub fn unbounded() -> (range: Range)
        ensures
            range == (Range::<Box<Node>> { start: None, end: None }),
    {
        Range { start: None, end: None }
    }

    /// The node of an integer bound: an integer literal that knows nothing
    /// of its place.
    pub open spec fn int_node(bound: Option<i64>) -> Option<Box<Node>> {
        match bound {
            Some(i) => Some(Box::new(Node::of_item(Item::Literal(Literal::Integer(i))))),
            None => None,
        }
    }

    /// The range of the given integers: each bound that is given becomes
    /// an integer literal, each missing bound stays missing.
    pub fn from_ints(start: Option<i64>, end: Option<i64>) -> (range: Range)
        ensures
            range == (Range::<Box<Node>> {
                start: Range::int_node(start),
                end: Range::int_node(end),
            }),
    {
        let start = match start {
            Some(x) => Some(Box::new(Node::from(Item::Literal(Literal::Integer(x))))),
            None => None,
        };
        let end = match end {
            Some(x) => Some(Box::new(Node::from(Item::Literal(Literal::Integer(x))))),
            None => None,
        };
        Range { start, end }
    }

    /// The range as a range of integers, where each bound that it has is
    /// an integer literal; else the mismatch at its first other bound, the
    /// start before the end.
    pub open spec fn as_ints(self) -> Result<Range<i64>, TypeMismatch> {
        match int_bound(self.start) {
            Err(found) => Err(TypeMismatch { found }),
            Ok(start) => match int_bound(self.end) {
                Err(found) => Err(TypeMismatch { found }),
                Ok(end) => Ok(Range { start, end }),
            },
        }
    }

    /// The range as a range of integers. It fails where a bound is
    /// anything but an integer literal.
    pub fn into_int(self) -> (res: Result<Range<i64>, TypeMismatch>)
        ensures
            res == self.as_ints(),
    {
        let start = match self.start {
            Some(b) => match cast_bound(*b) {
                Ok(i) => Some(i),
                Err(item) => {
                    return Err(TypeMismatch::from(item));
                },
            },
            None => None,
        };
        let end = match self.end {
            Some(b) => match cast_bound(*b) {
                Ok(i) => Some(i),
                Err(item) => {
                    return Err(TypeMismatch::from(item));
                },
            },
            None => None,
        };
        Ok(Range { start, end })
    }
}

impl Pipeline {
    /// Every stage is a transform.
    pub open spec fn all_transforms(self) -> bool {
        forall|i: int| 0 <= i < self.nodes@.len() ==> (#[trigger] self.nodes@[i]).item is Transform
    }

    /// The transforms of the pipeline, in its order, where every stage is
    /// one; else the item of the first stage that is none.
    pub fn into_transforms(self) -> (res: Result<Vec<Transform>, Item>)
        ensures
            res is Ok <==> self.all_transforms(),
            match res {
                Ok(transforms) => {
                    &&& transforms@.len() == self.nodes@.len()
                    &&& forall|i: int|
                        0 <= i < self.nodes@.len() ==> (#[trigger] self.nodes@[i]).item
                            == Item::Transform(transforms@[i])
                },
                Err(item) => exists|k: int|
                    {
                        &&& 0 <= k < self.nodes@.len()
                        &&& (#[trigger] self.nodes@[k]).item == item
                        &&& !(item is Transform)
                        &&& forall|j: int|
                            0 <= j < k ==> (#[trigger] self.nodes@[j]).item is Transform
                    },
            },
    {
        let ghost nodes = self.nodes@;
        let mut results: Vec<Result<Transform, Item>> = Vec::new();
        for node in iter: self.nodes
            invariant
                iter.seq() == nodes,
                results@.len() == iter.index(),
                forall|j: int|
                    0 <= j < results@.len() ==> results@[j] == (match (#[trigger] nodes[j]).item {
                        Item::Transform(transform) => Ok::<Transform, Item>(transform),
                        other => Err::<Transform, Item>(other),
                    }),
        {
            results.push(node.item.into_transform());
        }
        let res = try_collect(results);
        proof {
            match &res {
                Ok(transforms) => {
                    assert forall|i: int| 0 <= i < nodes.len() implies (#[trigger] nodes[i]).item
                        == Item::Transform(transforms@[i]) by {
                        assert(results@[i] == Ok::<Transform, Item>(transforms@[i]));
                    }
                },
                Err(item) => {
                    let k = choose|k: int|
                        {
                            &&& 0 <= k < results@.len()
                            &&& results@[k] == Err::<Transform, Item>(*item)
                            &&& forall|j: int| 0 <= j < k ==> results@[j] is Ok
                        };
                    assert(nodes[k].item == *item);
                    assert forall|j: int| 0 <= j < k implies (#[trigger] nodes[j]).item
                        is Transform by {
                        assert(results@[j] is Ok);
                    }
                },
            }
        }
        res
    }

    /// The transforms of the pipeline, in its order, where every stage is
    /// one; `None` where some stage is none.
    pub fn as_transforms(&self) -> (res: Option<Vec<&Transform>>)
        ensures
            res is Some <==> self.all_transforms(),
            res matches Some(transforms) ==> {
                &&& transforms@.len() == self.nodes@.len()
                &&& forall|i: int|
                    0 <= i < self.nodes@.len() ==> (#[trigger] self.nodes@[i]).item
                        == Item::Transform(*transforms@[i])
            },
    {
        let mut transforms: Vec<&Transform> = Vec::new();
        let mut i: usize = 0;
        while i < self.nodes.len()
            invariant
                i <= self.nodes.len(),
                transforms@.len() == i,
                forall|j: int|
                    0 <= j < i ==> (#[trigger] self.nodes@[j]).item == Item::Transform(
                        *transforms@[j],
                    ),
            decreases self.nodes.len() - i,
        {
            match self.nodes[i].item.as_transform() {
                Some(transform) => {
                    transforms.push(transform);
                },
                None => {
                    assert(!(self.nodes@[i as int].item is Transform));
                    return None;
                },
            }
            i += 1;
        }
        Some(transforms)
    }
}

} // verus!
