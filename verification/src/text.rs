//! Building blocks of rendered text: decimal numbers and repeated layouts.

use vstd::prelude::*;

verus! {

/// The character of a decimal digit.
pub open spec fn digit_char(d: int) -> char {
    if d == 0 {
        '0'
    } else if d == 1 {
        '1'
    } else if d == 2 {
        '2'
    } else if d == 3 {
        '3'
    } else if d == 4 {
        '4'
    } else if d == 5 {
        '5'
    } else if d == 6 {
        '6'
    } else if d == 7 {
        '7'
    } else if d == 8 {
        '8'
    } else {
        '9'
    }
}

/// The decimal digits of a natural number, most significant first, without
/// leading zeros.
pub open spec fn nat_text(n: nat) -> Seq<char>
    decreases n,
{
    if n < 10 {
        seq![digit_char(n as int)]
    } else {
        nat_text(n / 10).push(digit_char((n % 10) as int))
    }
}

/// The decimal form of an integer: a minus sign for a negative number, then
/// the digits of its magnitude.
pub open spec fn int_text(n: int) -> Seq<char> {
    if n < 0 {
        seq!['-'] + nat_text((-n) as nat)
    } else {
        nat_text(n as nat)
    }
}

/// For each text in turn: `before`, the text, `after`.
pub open spec fn wrap_each(texts: Seq<Seq<char>>, before: Seq<char>, after: Seq<char>) -> Seq<
    char,
>
    decreases texts.len(),
{
    if texts.len() == 0 {
        Seq::empty()
    } else {
        wrap_each(texts.drop_last(), before, after) + before + texts.last() + after
    }
}

/// Wrapping one text more appends its wrapped form.
pub proof fn lemma_wrap_each_step(
    texts: Seq<Seq<char>>,
    i: int,
    before: Seq<char>,
    after: Seq<char>,
)
    requires
        0 <= i < texts.len(),
    ensures
        wrap_each(texts.take(i + 1), before, after) == wrap_each(texts.take(i), before, after)
            + before + texts[i] + after,
{
    assert(texts.take(i + 1).drop_last() =~= texts.take(i));
}

/// The texts in order, with `separator` between each two neighbours.
pub open spec fn join(texts: Seq<Seq<char>>, separator: Seq<char>) -> Seq<char>
    decreases texts.len(),
{
    if texts.len() == 0 {
        Seq::empty()
    } else if texts.len() == 1 {
        texts[0]
    } else {
        join(texts.drop_last(), separator) + separator + texts.last()
    }
}

/// Joining one text more appends it, behind a separator unless it is the
/// first.
pub proof fn lemma_join_step(texts: Seq<Seq<char>>, i: int, separator: Seq<char>)
    requires
        0 <= i < texts.len(),
    ensures
        join(texts.take(i + 1), separator) == if i == 0 {
            texts[i]
        } else {
            join(texts.take(i), separator) + separator + texts[i]
        },
{
    assert(texts.take(i + 1).drop_last() =~= texts.take(i));
}

/// `part` stands in `whole` from the place `at` on.
pub open spec fn occurs_at(part: Seq<char>, whole: Seq<char>, at: int) -> bool {
    &&& 0 <= at
    &&& at + part.len() <= whole.len()
    &&& whole.subrange(at, at + part.len()) == part
}

/// `part` stands somewhere in `whole`, in one piece.
pub open spec fn occurs_in(part: Seq<char>, whole: Seq<char>) -> bool {
    exists|at: int| occurs_at(part, whole, at)
}

/// A text stands in itself.
pub proof fn lemma_occurs_in_itself(text: Seq<char>)
    ensures
        occurs_in(text, text),
{
    assert(text.subrange(0, text.len() as int) =~= text);
    assert(occurs_at(text, text, 0));
}

/// What stands in a text stands in every text around it.
pub proof fn lemma_occurs_in_wider(
    part: Seq<char>,
    middle: Seq<char>,
    before: Seq<char>,
    after: Seq<char>,
)
    requires
        occurs_in(part, middle),
    ensures
        occurs_in(part, before + middle + after),
{
    let at = choose|at: int| occurs_at(part, middle, at);
    let whole = before + middle + after;
    assert(whole.subrange(before.len() + at, before.len() + at + part.len()) =~= middle.subrange(
        at,
        at + part.len(),
    ));
    assert(occurs_at(part, whole, before.len() + at));
}

/// What stands in a part of a text stands in the text.
pub proof fn lemma_occurs_in_transitive(part: Seq<char>, middle: Seq<char>, whole: Seq<char>)
    requires
        occurs_in(part, middle),
        occurs_in(middle, whole),
    ensures
        occurs_in(part, whole),
{
    let at = choose|at: int| occurs_at(middle, whole, at);
    let before = whole.subrange(0, at);
    let after = whole.subrange(at + middle.len(), whole.len() as int);
    assert(whole =~= before + middle + after);
    lemma_occurs_in_wider(part, middle, before, after);
}

/// What stands in one of the texts stands in the texts wrapped one after
/// the other.
pub proof fn lemma_occurs_in_wrap_each(
    part: Seq<char>,
    texts: Seq<Seq<char>>,
    i: int,
    before: Seq<char>,
    after: Seq<char>,
)
    requires
        0 <= i < texts.len(),
        occurs_in(part, texts[i]),
    ensures
        occurs_in(part, wrap_each(texts, before, after)),
    decreases texts.len(),
{
    let shorter = wrap_each(texts.drop_last(), before, after);
    if i == texts.len() - 1 {
        lemma_occurs_in_wider(part, texts[i], shorter + before, after);
        assert(wrap_each(texts, before, after) =~= (shorter + before) + texts[i] + after);
    } else {
        lemma_occurs_in_wrap_each(part, texts.drop_last(), i, before, after);
        lemma_occurs_in_wider(part, shorter, Seq::empty(), before + texts.last() + after);
        assert(wrap_each(texts, before, after) =~= Seq::<char>::empty() + shorter + (before
            + texts.last() + after));
    }
}

/// What stands in one of the texts stands in the texts joined by a
/// separator.
pub proof fn lemma_occurs_in_join(
    part: Seq<char>,
    texts: Seq<Seq<char>>,
    i: int,
    separator: Seq<char>,
)
    requires
        0 <= i < texts.len(),
        occurs_in(part, texts[i]),
    ensures
        occurs_in(part, join(texts, separator)),
    decreases texts.len(),
{
    if texts.len() == 1 {
    } else {
        let shorter = join(texts.drop_last(), separator);
        if i == texts.len() - 1 {
            lemma_occurs_in_wider(part, texts[i], shorter + separator, Seq::empty());
            assert(join(texts, separator) =~= (shorter + separator) + texts[i] + Seq::<
                char,
            >::empty());
        } else {
            lemma_occurs_in_join(part, texts.drop_last(), i, separator);
            lemma_occurs_in_wider(part, shorter, Seq::empty(), separator + texts.last());
            assert(join(texts, separator) =~= Seq::<char>::empty() + shorter + (separator
                + texts.last()));
        }
    }
}

fn digit_str(d: u64) -> (s: &'static str)
    requires
        d < 10,
    ensures
        s@ == seq![digit_char(d as int)],
{
    proof {
        reveal_strlit("0");
        reveal_strlit("1");
        reveal_strlit("2");
        reveal_strlit("3");
        reveal_strlit("4");
        reveal_strlit("5");
        reveal_strlit("6");
        reveal_strlit("7");
        reveal_strlit("8");
        reveal_strlit("9");
    }
    let s: &'static str = if d == 0 {
        "0"
    } else if d == 1 {
        "1"
    } else if d == 2 {
        "2"
    } else if d == 3 {
        "3"
    } else if d == 4 {
        "4"
    } else if d == 5 {
        "5"
    } else if d == 6 {
        "6"
    } else if d == 7 {
        "7"
    } else if d == 8 {
        "8"
    } else {
        "9"
    };
    assert(s@ =~= seq![digit_char(d as int)]);
    s
}

/// Appends the decimal digits of `n` to `f`.
pub fn push_nat(f: &mut String, n: u64)
    ensures
        final(f)@ == old(f)@ + nat_text(n as nat),
    decreases n,
{
    if n >= 10 {
        push_nat(f, n / 10);
    }
    f.append(digit_str(n % 10));
    assert(f@ =~= old(f)@ + nat_text(n as nat));
}

/// Appends the decimal form of `n` to `f`.
pub fn push_int(f: &mut String, n: i64)
    ensures
        final(f)@ == old(f)@ + int_text(n as int),
{
    if n < 0 {
        proof {
            reveal_strlit("-");
        }
        f.append("-");
        let magnitude: u64 = if n == i64::MIN {
            9223372036854775808u64
        } else {
            (-n) as u64
        };
        push_nat(f, magnitude);
        assert(f@ =~= old(f)@ + int_text(n as int));
    } else {
        push_nat(f, n as u64);
    }
}

} // verus!
