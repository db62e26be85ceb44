//! Type expressions.

use vstd::prelude::*;
use vstd::std_specs::vec::axiom_vec_index_decreases;
use crate::text::{join, lemma_join_step};

verus! {

/// A type expression.
#[derive(Debug, PartialEq)]
pub enum Ty {
    /// The type of the empty expression.
    Empty,
    /// A type known by its name.
    Named(String),
    /// Any one of the given types.
    AnyOf(Vec<Ty>),
    /// A type that is still to be found out.
    Infer,
}

impl Ty {
    /// The type expression as source text: `()`, the name, the alternatives
    /// separated by `|`, or `infer`.
    pub open spec fn text(self) -> Seq<char>
        decreases self,
    {
        match self {
            Ty::Empty => "()"@,
            Ty::Named(name) => name@,
            Ty::AnyOf(alternatives) => join(Ty::texts(alternatives@), "|"@),
            Ty::Infer => "infer"@,
        }
    }

    /// The text of each type, in order.
    pub open spec fn texts(types: Seq<Ty>) -> Seq<Seq<char>>
        decreases types,
    {
        Seq::new(
            types.len(),
            |i: int|
                if 0 <= i < types.len() {
                    types[i].text()
                } else {
                    Seq::empty()
                },
        )
    }

    /// Appends the texts of `alternatives` to `f`, with `|` between them.
    fn fmt_alternatives(alternatives: &Vec<Ty>, f: &mut String)
        ensures
            final(f)@ == old(f)@ + join(Ty::texts(alternatives@), "|"@),
        decreases alternatives,
    {
        let ghost texts = Ty::texts(alternatives@);
        let mut i: usize = 0;
        assert(join(texts.take(0), "|"@) =~= Seq::<char>::empty());
        while i < alternatives.len()
            invariant
                i <= alternatives.len(),
                texts == Ty::texts(alternatives@),
                f@ == old(f)@ + join(texts.take(i as int), "|"@),
            decreases alternatives.len() - i,
        {
            if i > 0 {
                f.append("|");
            }
            proof {
                axiom_vec_index_decreases(*alternatives, i as int);
            }
            alternatives[i].fmt(f);
            proof {
                lemma_join_step(texts, i as int, "|"@);
            }
            i += 1;
        }
        assert(texts.take(i as int) =~= texts);
    }

    /// Appends the type's text to `f`.
    pub fn fmt(&self, f: &mut String)
        ensures
            final(f)@ == old(f)@ + self.text(),
        decreases self,
    {
        match self {
            Ty::Empty => {
                f.append("()");
            },
            Ty::Named(name) => {
                f.append(name.as_str());
            },
            Ty::AnyOf(alternatives) => {
                Ty::fmt_alternatives(alternatives, f);
            },
            Ty::Infer => {
                f.append("infer");
            },
        }
    }
}

} // verus!
