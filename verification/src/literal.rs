//! Literal values.

use vstd::prelude::*;
use crate::text::{int_text, push_int};

verus! {

/// A literal value as it stands in a query.
#[derive(Debug, PartialEq, Clone)]
pub enum Literal {
    Null,
    Integer(i64),
    /// A number with a fraction or an exponent, kept as it was written.
    Float(String),
    Boolean(bool),
    String(String),
    Date(String),
    Time(String),
    Timestamp(String),
}

impl Literal {
    /// The literal as source text: `null`, a decimal integer, a float as
    /// written, `true` or `false`, a string between double quotes, and a
    /// date, time or timestamp behind `@`.
    pub open spec fn text(self) -> Seq<char> {
        match self {
            Literal::Null => "null"@,
            Literal::Integer(i) => int_text(i as int),
            Literal::Float(written) => written@,
            Literal::Boolean(b) => if b {
                "true"@
            } else {
                "false"@
            },
            Literal::String(s) => "\""@ + s@ + "\""@,
            Literal::Date(inner) | Literal::Time(inner) | Literal::Timestamp(inner) => "@"@
                + inner@,
        }
    }

    /// Appends the literal's text to `f`.
    pub fn fmt(&self, f: &mut String)
        ensures
            final(f)@ == old(f)@ + self.text(),
    {
        match self {
            Literal::Null => {
                f.append("null");
            },
            Literal::Integer(i) => {
                push_int(f, *i);
            },
            Literal::Float(written) => {
                f.append(written.as_str());
            },
            Literal::Boolean(b) => {
                f.append(
                    if *b {
                        "true"
                    } else {
                        "false"
                    },
                );
            },
            Literal::String(s) => {
                f.append("\"");
                f.append(s.as_str());
                f.append("\"");
                assert(f@ =~= old(f)@ + self.text());
            },
            Literal::Date(inner) | Literal::Time(inner) | Literal::Timestamp(inner) => {
                f.append("@");
                f.append(inner.as_str());
                assert(f@ =~= old(f)@ + self.text());
            },
        }
    }

    /// The literal's text.
    pub fn to_string(&self) -> (s: String)
        ensures
            s@ == self.text(),
    {
        let mut s = String::new();
        self.fmt(&mut s);
        assert(s@ =~= self.text());
        s
    }

    /// The integer of an integer literal; any other literal comes back
    /// unchanged as the error.
    pub fn into_integer(self) -> (res: Result<i64, Literal>)
        ensures
            res == (match self {
                Literal::Integer(i) => Ok::<i64, Literal>(i),
                _ => Err::<i64, Literal>(self),
            }),
    {
        match self {
            Literal::Integer(i) => Ok(i),
            other => Err(other),
        }
    }
}

} // verus!
