//! Telling what a line is: literal text, a variable expression, a tag, or none
//! of them.
//!
//! The markers and keywords are looked for anywhere in the line. Nothing is
//! parsed: `if` inside a word counts as the keyword.

use vstd::prelude::*;
use crate::content::{Content, ContentType, TagType};
use crate::expression::{split, splittable, try_get_expression_data};
use crate::text::{
    chars_of, first_position, has_occurrence, lemma_first_position_exists, occurs_at, occurs_in,
};

verus! {

/// Both `first` and `second` stand somewhere in `line`, in any order.
pub open spec fn has_pair(line: Seq<char>, first: Seq<char>, second: Seq<char>) -> bool {
    occurs_in(line, first) && occurs_in(line, second)
}

/// The line has the markers of a tag.
pub open spec fn is_tag_expression(line: Seq<char>) -> bool {
    has_pair(line, "{%"@, "%}"@)
}

/// The line has the markers of a variable.
pub open spec fn is_template_variable(line: Seq<char>) -> bool {
    has_pair(line, "{{"@, "}}"@)
}

/// The line has the keywords of a loop.
pub open spec fn is_for_tag(line: Seq<char>) -> bool {
    (occurs_in(line, "for"@) && occurs_in(line, "in"@)) || occurs_in(line, "endfor"@)
}

/// The line has a keyword of a condition.
pub open spec fn is_if_tag(line: Seq<char>) -> bool {
    occurs_in(line, "if"@) || occurs_in(line, "endif"@)
}

/// What `line` is. The first rule that applies decides: a loop before a
/// condition, a tag before a variable. A line with the markers of a variable
/// that cannot be cut at its first braces is unrecognized.
pub open spec fn classify(line: Seq<char>) -> Content {
    if is_tag_expression(line) && is_for_tag(line) {
        Content::Tag(TagType::ForTag)
    } else if is_tag_expression(line) && is_if_tag(line) {
        Content::Tag(TagType::IfTag)
    } else if is_template_variable(line) {
        if splittable(line) {
            Content::TemplateVariable(split(line))
        } else {
            Content::Unrecognized
        }
    } else if !is_tag_expression(line) {
        Content::Literal(line)
    } else {
        Content::Unrecognized
    }
}

/// Whether `symbol` stands somewhere in `line`.
fn has_symbol(line: &[char], symbol: &str) -> (b: bool)
    ensures
        b == occurs_in(line@, symbol@),
{
    let pattern = chars_of(symbol);
    has_occurrence(line, pattern.as_slice())
}

/// Whether `symbol` stands somewhere in `input`.
pub fn check_symbol_string(input: &str, symbol: &str) -> (b: bool)
    ensures
        b == occurs_in(input@, symbol@),
{
    let line = chars_of(input);
    has_symbol(line.as_slice(), symbol)
}

/// Whether both `symbol1` and `symbol2` stand somewhere in `input`.
pub fn check_matching_pair(input: &str, symbol1: &str, symbol2: &str) -> (b: bool)
    ensures
        b == has_pair(input@, symbol1@, symbol2@),
{
    let line = chars_of(input);
    has_symbol(line.as_slice(), symbol1) && has_symbol(line.as_slice(), symbol2)
}

/// Says what `input_line` is.
pub fn get_content_type(input_line: &str) -> (content: ContentType)
    ensures
        content@ == classify(input_line@),
        !is_tag_expression(input_line@) && !is_template_variable(input_line@) ==> content@
            == Content::Literal(input_line@),
        is_tag_expression(input_line@) && !is_for_tag(input_line@) && !is_if_tag(input_line@)
            && !is_template_variable(input_line@) ==> content@ == Content::Unrecognized,
{
    let chars = chars_of(input_line);
    let line = chars.as_slice();
    let is_tag_expression = has_symbol(line, "{%") && has_symbol(line, "%}");
    let is_for_tag = (has_symbol(line, "for") && has_symbol(line, "in"))
        || has_symbol(line, "endfor");
    let is_if_tag = has_symbol(line, "if") || has_symbol(line, "endif");
    let is_template_variable = has_symbol(line, "{{") && has_symbol(line, "}}");

    if is_tag_expression && is_for_tag {
        ContentType::Tag(TagType::ForTag)
    } else if is_tag_expression && is_if_tag {
        ContentType::Tag(TagType::IfTag)
    } else if is_template_variable {
        match try_get_expression_data(input_line) {
            Ok(content) => ContentType::TemplateVariable(content),
            Err(_) => ContentType::Unrecognized,
        }
    } else if !is_tag_expression {
        ContentType::Literal(input_line.to_owned())
    } else {
        ContentType::Unrecognized
    }
}

/// A line with the markers of a variable holds both braces and at least two
/// characters from its first `}` on. So it can be cut unless that `}` comes
/// too early: before the second character after the first `{`.
pub proof fn lemma_template_variable_braces(line: Seq<char>)
    requires
        is_template_variable(line),
    ensures
        line.contains('{'),
        line.contains('}'),
        first_position(line, '}') + 2 <= line.len(),
        splittable(line) <==> first_position(line, '{') + 2 <= first_position(line, '}'),
{
    reveal_strlit("{{");
    reveal_strlit("}}");
    let opening = choose|at: int| occurs_at(line, "{{"@, at);
    let closing = choose|at: int| occurs_at(line, "}}"@, at);
    assert(line[opening] == line.subrange(opening, opening + 2)[0]);
    assert(line[closing] == line.subrange(closing, closing + 2)[0]);
    lemma_first_position_exists(line, '}');
}

/// A line has one category: two results for the same line are the same.
pub proof fn lemma_classification_is_determined(
    line: Seq<char>,
    first: ContentType,
    second: ContentType,
)
    requires
        first@ == classify(line),
        second@ == classify(line),
    ensures
        first@ == second@,
{
}

} // verus!
