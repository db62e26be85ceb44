//! Operator tags of binary and unary expressions.

use vstd::prelude::*;

verus! {

/// A binary operator.
#[derive(Debug, PartialEq, Clone)]
pub enum BinOp {
    Mul,
    Div,
    Mod,
    Add,
    Sub,
    Eq,
    Ne,
    Gt,
    Lt,
    Gte,
    Lte,
    And,
    Or,
    Coalesce,
}

/// A unary operator.
#[derive(Debug, PartialEq, Clone)]
pub enum UnOp {
    Neg,
    Not,
}

impl BinOp {
    /// The symbol by which the operator is written.
    pub open spec fn text(self) -> Seq<char> {
        match self {
            BinOp::Mul => "*"@,
            BinOp::Div => "/"@,
            BinOp::Mod => "%"@,
            BinOp::Add => "+"@,
            BinOp::Sub => "-"@,
            BinOp::Eq => "=="@,
            BinOp::Ne => "!="@,
            BinOp::Gt => ">"@,
            BinOp::Lt => "<"@,
            BinOp::Gte => ">="@,
            BinOp::Lte => "<="@,
            BinOp::And => "and"@,
            BinOp::Or => "or"@,
            BinOp::Coalesce => "??"@,
        }
    }

    /// The operator's symbol.
    pub fn as_str(&self) -> (s: &'static str)
        ensures
            s@ == self.text(),
    {
        match self {
            BinOp::Mul => "*",
            BinOp::Div => "/",
            BinOp::Mod => "%",
            BinOp::Add => "+",
            BinOp::Sub => "-",
            BinOp::Eq => "==",
            BinOp::Ne => "!=",
            BinOp::Gt => ">",
            BinOp::Lt => "<",
            BinOp::Gte => ">=",
            BinOp::Lte => "<=",
            BinOp::And => "and",
            BinOp::Or => "or",
            BinOp::Coalesce => "??",
        }
    }

    /// The operator's symbol, as an owned string.
    pub fn to_string(&self) -> (s: String)
        ensures
            s@ == self.text(),
    {
        String::from_str(self.as_str())
    }
}

impl UnOp {
    /// The prefix that the operator puts before its operand: `!` negates,
    /// `not ` (with its blank) inverts.
    pub open spec fn prefix(self) -> Seq<char> {
        match self {
            UnOp::Neg => "!"@,
            UnOp::Not => "not "@,
        }
    }

    /// The operator's prefix.
    pub fn as_prefix(&self) -> (s: &'static str)
        ensures
            s@ == self.prefix(),
    {
        match self {
            UnOp::Neg => "!",
            UnOp::Not => "not ",
        }
    }
}

} // verus!
