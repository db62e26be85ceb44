//! Queries, the definitions at their top level, and the transforms of a
//! pipeline.

use vstd::prelude::*;
use crate::item::{Ident, Node, Range};

verus! {

/// The SQL dialect that a query is written for.
#[derive(Debug, PartialEq, Eq, Clone, Copy)]
pub enum Dialect {
    Ansi,
    BigQuery,
    ClickHouse,
    Generic,
    Hive,
    MsSql,
    MySql,
    PostgreSql,
    SQLite,
    Snowflake,
}

impl Dialect {
    /// The dialect's name, in lower case.
    pub open spec fn text(self) -> Seq<char> {
        match self {
            Dialect::Ansi => "ansi"@,
            Dialect::BigQuery => "bigquery"@,
            Dialect::ClickHouse => "clickhouse"@,
            Dialect::Generic => "generic"@,
            Dialect::Hive => "hive"@,
            Dialect::MsSql => "mssql"@,
            Dialect::MySql => "mysql"@,
            Dialect::PostgreSql => "postgres"@,
            Dialect::SQLite => "sqlite"@,
            Dialect::Snowflake => "snowflake"@,
        }
    }

    /// The dialect's name.
    pub fn as_str(&self) -> (s: &'static str)
        ensures
            s@ == self.text(),
    {
        match self {
            Dialect::Ansi => "ansi",
            Dialect::BigQuery => "bigquery",
            Dialect::ClickHouse => "clickhouse",
            Dialect::Generic => "generic",
            Dialect::Hive => "hive",
            Dialect::MsSql => "mssql",
            Dialect::MySql => "mysql",
            Dialect::PostgreSql => "postgres",
            Dialect::SQLite => "sqlite",
            Dialect::Snowflake => "snowflake",
        }
    }
}

/// A whole program: a dialect and the nodes at its top level.
#[derive(Debug, PartialEq)]
pub struct Query {
    pub version: Option<i64>,
    pub dialect: Dialect,
    pub nodes: Vec<Node>,
}

/// A parameter of a function definition.
#[derive(Debug, PartialEq)]
pub struct FuncParam {
    pub name: Ident,
    pub default_value: Option<Node>,
}

/// A function definition.
#[derive(Debug, PartialEq)]
pub struct FuncDef {
    pub name: Ident,
    pub positional_params: Vec<FuncParam>,
    pub named_params: Vec<FuncParam>,
    pub body: Box<Node>,
}

/// A named table definition.
#[derive(Debug, PartialEq)]
pub struct Table {
    pub name: String,
    pub pipeline: Box<Node>,
    pub id: Option<usize>,
}

/// A table that a transform reads.
#[derive(Debug, PartialEq, Clone)]
pub struct TableRef {
    pub name: String,
    pub alias: Option<String>,
    pub declared_at: Option<usize>,
}

/// Which rows of the two sides a join keeps.
#[derive(Debug, PartialEq, Eq, Clone, Copy)]
pub enum JoinSide {
    Inner,
    Left,
    Right,
    Full,
}

/// How a join matches the rows of its two sides.
#[derive(Debug, PartialEq)]
pub enum JoinFilter {
    On(Vec<Node>),
    Using(Vec<Node>),
}

/// The direction of a sort.
#[derive(Debug, PartialEq, Eq, Clone, Copy)]
pub enum SortDirection {
    Asc,
    Desc,
}

/// A column to sort by, and the direction.
#[derive(Debug, PartialEq)]
pub struct ColumnSort<T = Node> {
    pub direction: SortDirection,
    pub column: T,
}

/// The unit in which a window's extent is counted.
#[derive(Debug, PartialEq, Eq, Clone, Copy)]
pub enum WindowKind {
    Rows,
    Range,
}

/// One operation of a pipeline.
#[derive(Debug, PartialEq)]
pub enum Transform {
    From(TableRef),
    Select(Vec<Node>),
    Filter(Box<Node>),
    Derive(Vec<Node>),
    Aggregate { assigns: Vec<Node>, by: Vec<Node> },
    Sort(Vec<ColumnSort<Node>>),
    Take { range: Range, by: Vec<Node>, sort: Vec<ColumnSort<Node>> },
    Join { side: JoinSide, with: TableRef, filter: JoinFilter },
    Group { by: Vec<Node>, pipeline: Box<Node> },
    Window { kind: WindowKind, range: Range, pipeline: Box<Node> },
    Unique,
}

impl Transform {
    /// The name of the transform's kind.
    pub open spec fn kind_name(self) -> Seq<char> {
        match self {
            Transform::From(_) => "From"@,
            Transform::Select(_) => "Select"@,
            Transform::Filter(_) => "Filter"@,
            Transform::Derive(_) => "Derive"@,
            Transform::Aggregate { .. } => "Aggregate"@,
            Transform::Sort(_) => "Sort"@,
            Transform::Take { .. } => "Take"@,
            Transform::Join { .. } => "Join"@,
            Transform::Group { .. } => "Group"@,
            Transform::Window { .. } => "Window"@,
            Transform::Unique => "Unique"@,
        }
    }

    /// The name of the transform's kind.
    pub fn as_ref(&self) -> (s: &'static str)
        ensures
            s@ == self.kind_name(),
    {
        match self {
            Transform::From(_) => "From",
            Transform::Select(_) => "Select",
            Transform::Filter(_) => "Filter",
            Transform::Derive(_) => "Derive",
            Transform::Aggregate { .. } => "Aggregate",
            Transform::Sort(_) => "Sort",
            Transform::Take { .. } => "Take",
            Transform::Join { .. } => "Join",
            Transform::Group { .. } => "Group",
            Transform::Window { .. } => "Window",
            Transform::Unique => "Unique",
        }
    }
}

} // verus!
