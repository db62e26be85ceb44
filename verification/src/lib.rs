//! Syntax tree of a small query language, and its rendering as source text.
//!
//! The tree is made of [`Node`]s, each of which holds an [`Item`]. An item
//! renders as text with [`Item::fmt`] and [`Item::to_string`]; what it
//! renders as is the spec function `Item::text`, which the rendering is
//! proved to follow character by character. Two conversions can fail:
//! [`Range::into_int`] and [`Pipeline::into_transforms`].
//!
//! - `item`, `literal`, `ops`, `query`, `types`: the tree's types.
//! - `text`, `layout`: decimal numbers and the layout rules, on plain text.
//! - `render`: the text of an item, and the functions that write it.
//! - `shown`: which parts of a tree its text shows.
//! - `convert`: the conversions.
//! - `laws`: what holds of all of this, whatever the tree.

mod collect;
pub mod convert;
pub mod item;
pub mod laws;
pub mod layout;
pub mod literal;
pub mod ops;
pub mod query;
pub mod render;
pub mod shown;
pub mod text;
pub mod types;

pub use convert::TypeMismatch;
pub use item::{
    FuncCall, FuncCurry, Ident, InterpolateItem, Interval, Item, ListItem, NamedExpr, Node,
    Pipeline, Range, Span, Windowed,
};
pub use literal::Literal;
pub use ops::{BinOp, UnOp};
pub use query::{
    ColumnSort, Dialect, FuncDef, FuncParam, JoinFilter, JoinSide, Query, SortDirection, Table,
    TableRef, Transform, WindowKind,
};
pub use render::display_interpolation;
pub use types::Ty;
