//! Cutting a line with a variable in it into head, variable and tail.

use vstd::prelude::*;
use vstd::string::StrSliceExecFns;
use vstd::utf8::encode_utf8;
use crate::content::{ExpressionData, ExpressionParts};
use crate::text::{
    chars_of, find_first, first_position, lemma_first_position_exists, lemma_first_position_is,
};

verus! {

/// The line cannot be cut: a brace is missing, or the first `}` leaves no room
/// for a marker of two characters after the first `{`.
#[derive(PartialEq, Debug)]
pub struct MalformedExpression;

/// The line can be cut at its first `{` and its first `}`: both are there, two
/// characters after the first `{` the line has reached at most the first `}`,
/// and at least two characters remain from the first `}` on.
pub open spec fn splittable(line: Seq<char>) -> bool {
    &&& line.contains('{')
    &&& line.contains('}')
    &&& first_position(line, '{') + 2 <= first_position(line, '}')
    &&& first_position(line, '}') + 2 <= line.len()
}

/// The three parts of `line`: what stands before the first `{`, what stands from
/// two characters after it up to the first `}`, and what stands from two
/// characters after that `}` on.
pub open spec fn split(line: Seq<char>) -> ExpressionParts {
    let open = first_position(line, '{');
    let close = first_position(line, '}');
    ExpressionParts {
        head: Some(line.subrange(0, open)),
        variable: line.subrange(open + 2, close),
        tail: Some(line.subrange(close + 2, line.len() as int)),
    }
}

/// Neither brace occurs in `text`.
pub open spec fn brace_free(text: Seq<char>) -> bool {
    !text.contains('{') && !text.contains('}')
}

/// `head`, the opening marker, `variable`, the closing marker and `tail`, in a row.
pub open spec fn assemble(head: Seq<char>, variable: Seq<char>, tail: Seq<char>) -> Seq<char> {
    head + "{{"@ + variable + "}}"@ + tail
}

/// Cutting undoes assembling: a line put together from three parts without
/// braces can be cut, and is cut into those parts. Put together again, they
/// give the line.
pub proof fn lemma_split_of_assembled(head: Seq<char>, variable: Seq<char>, tail: Seq<char>)
    requires
        brace_free(head),
        brace_free(variable),
        brace_free(tail),
    ensures
        splittable(assemble(head, variable, tail)),
        split(assemble(head, variable, tail)) == (ExpressionParts {
            head: Some(head),
            variable,
            tail: Some(tail),
        }),
        assemble(
            split(assemble(head, variable, tail)).head->Some_0,
            split(assemble(head, variable, tail)).variable,
            split(assemble(head, variable, tail)).tail->Some_0,
        ) == assemble(head, variable, tail),
{
    reveal_strlit("{{");
    reveal_strlit("}}");
    let line = assemble(head, variable, tail);
    let open = head.len() as int;
    let close = open + 2 + variable.len();
    assert(line.len() == close + 2 + tail.len());
    assert(line[open] == '{');
    assert(line[close] == '}');
    assert forall|before: int| 0 <= before < open implies line[before] != '{' by {
        assert(line[before] == head[before]);
    }
    assert forall|before: int| 0 <= before < close implies line[before] != '}' by {
        if before < open {
            assert(line[before] == head[before]);
        } else if before >= open + 2 {
            assert(line[before] == variable[before - open - 2]);
        }
    }
    lemma_first_position_is(line, '{', open);
    lemma_first_position_is(line, '}', close);
    assert(line.subrange(0, open) =~= head);
    assert(line.subrange(open + 2, close) =~= variable);
    assert(line.subrange(close + 2, line.len() as int) =~= tail);
}

/// A line that can be cut, with a second `{` after its first `{` and a second
/// `}` after its first `}`, is its three parts with the markers between them.
pub proof fn lemma_split_rebuilds(line: Seq<char>)
    requires
        splittable(line),
        line[first_position(line, '{') + 1] == '{',
        line[first_position(line, '}') + 1] == '}',
    ensures
        assemble(split(line).head->Some_0, split(line).variable, split(line).tail->Some_0)
            == line,
{
    reveal_strlit("{{");
    reveal_strlit("}}");
    lemma_first_position_exists(line, '{');
    lemma_first_position_exists(line, '}');
    assert(assemble(split(line).head->Some_0, split(line).variable, split(line).tail->Some_0)
        =~= line);
}

/// The offset in bytes, in the UTF-8 form of `text`, of the character at
/// `position`: the length of what is encoded before it.
pub open spec fn utf8_offset(text: Seq<char>, position: int) -> nat {
    encode_utf8(text.subrange(0, position)).len()
}

/// Whether `symbol` occurs in `input` and, if it does, where it occurs first:
/// the offset in bytes at which `input` can be sliced. The offset is 0 where
/// `symbol` does not occur.
pub fn get_index_for_symbol(input: &str, symbol: char) -> (result: (bool, usize))
    ensures
        result.0 == input@.contains(symbol),
        result.0 ==> result.1 == utf8_offset(input@, first_position(input@, symbol)),
        !result.0 ==> result.1 == 0,
{
    let chars = chars_of(input);
    match find_first(chars.as_slice(), symbol) {
        Some(at) => {
            let before = input.substring_char(0, at);
            (true, before.as_bytes().len())
        },
        None => (false, 0),
    }
}

/// Cuts `input_line` with its first `{` at `open` and its first `}` at `close`.
fn cut(input_line: &str, open: usize, close: usize) -> (data: ExpressionData)
    requires
        splittable(input_line@),
        open == first_position(input_line@, '{'),
        close == first_position(input_line@, '}'),
    ensures
        data@ == split(input_line@),
{
    let end = input_line.unicode_len();
    let head = input_line.substring_char(0, open).to_owned();
    let variable = input_line.substring_char(open + 2, close).to_owned();
    let tail = input_line.substring_char(close + 2, end).to_owned();
    ExpressionData { head: Some(head), variable, tail: Some(tail) }
}

/// Cuts a line that can be cut.
pub fn get_expression_data(input_line: &str) -> (data: ExpressionData)
    requires
        splittable(input_line@),
    ensures
        data@ == split(input_line@),
{
    let chars = chars_of(input_line);
    let open = find_first(chars.as_slice(), '{');
    let close = find_first(chars.as_slice(), '}');
    cut(input_line, open.unwrap(), close.unwrap())
}

/// Cuts a line if it can be cut, and says so if it cannot.
pub fn try_get_expression_data(input_line: &str) -> (result: Result<
    ExpressionData,
    MalformedExpression,
>)
    ensures
        splittable(input_line@) ==> result is Ok && result->Ok_0@ == split(input_line@),
        !splittable(input_line@) ==> result is Err,
{
    let chars = chars_of(input_line);
    match (find_first(chars.as_slice(), '{'), find_first(chars.as_slice(), '}')) {
        (Some(open), Some(close)) => {
            if close >= 2 && open <= close - 2 && chars.len() >= 2 && close <= chars.len() - 2 {
                Ok(cut(input_line, open, close))
            } else {
                Err(MalformedExpression)
            }
        },
        _ => Err(MalformedExpression),
    }
}

} // verus!
