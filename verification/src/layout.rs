//! How the texts of a node's parts are laid out: the rules for lists,
//! pipelines and string templates, on texts that are already rendered.

use vstd::prelude::*;
use crate::text::{
    join, lemma_occurs_in_join, lemma_occurs_in_wider, lemma_occurs_in_wrap_each, occurs_in,
    wrap_each,
};

verus! {

/// The texts one after the other.
pub open spec fn concat(texts: Seq<Seq<char>>) -> Seq<char> {
    wrap_each(texts, Seq::empty(), Seq::empty())
}

/// A list: `[]` when empty, `[item]` for one item, and else one item per
/// line, each indented by two blanks and followed by a comma, between `[`
/// and `]` on lines of their own.
pub open spec fn list_layout(items: Seq<Seq<char>>) -> Seq<char> {
    if items.len() == 0 {
        "[]"@
    } else if items.len() == 1 {
        "["@ + items[0] + "]"@
    } else {
        "[\n"@ + wrap_each(items, "  "@, ",\n"@) + "]"@
    }
}

/// The stages of a pipeline on one line, with ` | ` between them.
pub open spec fn inline_stages(stages: Seq<Seq<char>>) -> Seq<char> {
    join(stages, " | "@)
}

/// The stages of a pipeline as a block: a line break, then each stage on a
/// line of its own, indented by two blanks.
pub open spec fn block_stages(stages: Seq<Seq<char>>) -> Seq<char> {
    "\n"@ + wrap_each(stages, "  "@, "\n"@)
}

/// A pipeline between parentheses: nothing between them when it has no
/// stage, a single stage inline, two or more stages as a block.
pub open spec fn pipeline_layout(stages: Seq<Seq<char>>) -> Seq<char> {
    "("@ + (if stages.len() == 0 {
        Seq::empty()
    } else if stages.len() == 1 {
        inline_stages(stages)
    } else {
        block_stages(stages)
    }) + ")"@
}

/// A string template: the prefix, then the parts between double quotes.
pub open spec fn template_layout(prefix: Seq<char>, parts: Seq<Seq<char>>) -> Seq<char> {
    prefix + "\""@ + concat(parts) + "\""@
}

/// What stands in one of the texts stands in their concatenation.
pub proof fn lemma_occurs_in_concat(part: Seq<char>, texts: Seq<Seq<char>>, i: int)
    requires
        0 <= i < texts.len(),
        occurs_in(part, texts[i]),
    ensures
        occurs_in(part, concat(texts)),
{
    lemma_occurs_in_wrap_each(part, texts, i, Seq::empty(), Seq::empty());
}

/// What stands in the text of an item of a list stands in the list's text.
pub proof fn lemma_occurs_in_list(part: Seq<char>, items: Seq<Seq<char>>, i: int)
    requires
        0 <= i < items.len(),
        occurs_in(part, items[i]),
    ensures
        occurs_in(part, list_layout(items)),
{
    if items.len() == 1 {
        lemma_occurs_in_wider(part, items[0], "["@, "]"@);
    } else {
        lemma_occurs_in_wrap_each(part, items, i, "  "@, ",\n"@);
        lemma_occurs_in_wider(part, wrap_each(items, "  "@, ",\n"@), "[\n"@, "]"@);
    }
}

/// What stands in the text of a stage stands in the pipeline's text.
pub proof fn lemma_occurs_in_pipeline(part: Seq<char>, stages: Seq<Seq<char>>, i: int)
    requires
        0 <= i < stages.len(),
        occurs_in(part, stages[i]),
    ensures
        occurs_in(part, pipeline_layout(stages)),
{
    if stages.len() == 1 {
        lemma_occurs_in_join(part, stages, i, " | "@);
        lemma_occurs_in_wider(part, inline_stages(stages), "("@, ")"@);
    } else {
        lemma_occurs_in_wrap_each(part, stages, i, "  "@, "\n"@);
        lemma_occurs_in_wider(part, wrap_each(stages, "  "@, "\n"@), "("@ + "\n"@, ")"@);
        assert(pipeline_layout(stages) =~= ("("@ + "\n"@) + wrap_each(stages, "  "@, "\n"@)
            + ")"@);
    }
}

/// What stands in the text of a part stands in the template's text.
pub proof fn lemma_occurs_in_template(
    part: Seq<char>,
    prefix: Seq<char>,
    parts: Seq<Seq<char>>,
    i: int,
)
    requires
        0 <= i < parts.len(),
        occurs_in(part, parts[i]),
    ensures
        occurs_in(part, template_layout(prefix, parts)),
{
    lemma_occurs_in_concat(part, parts, i);
    lemma_occurs_in_wider(part, concat(parts), prefix + "\""@, "\""@);
}

} // verus!
