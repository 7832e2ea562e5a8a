//! What a line of a template can be, and the parts of a variable expression.

use vstd::prelude::*;

verus! {

/// The two structural tags.
#[derive(PartialEq, Debug)]
pub enum TagType {
    ForTag,
    IfTag,
}

/// A line with a variable in it, cut in three.
#[derive(PartialEq, Debug)]
pub struct ExpressionData {
    /// The text before the opening marker.
    pub head: Option<String>,
    /// The name between the markers, as it stands in the line.
    pub variable: String,
    /// The text after the closing marker.
    pub tail: Option<String>,
}

/// The category of one line.
#[derive(PartialEq, Debug)]
pub enum ContentType {
    /// A line without markers, kept as it is.
    Literal(String),
    /// A line with a `{{ }}` pair.
    TemplateVariable(ExpressionData),
    /// A line with a `{% %}` pair and the keywords of a loop or a condition.
    Tag(TagType),
    /// A line with markers that is neither of the two.
    Unrecognized,
}

/// The model of an [`ExpressionData`].
pub struct ExpressionParts {
    pub head: Option<Seq<char>>,
    pub variable: Seq<char>,
    pub tail: Option<Seq<char>>,
}

/// The model of a [`ContentType`].
pub enum Content {
    Literal(Seq<char>),
    TemplateVariable(ExpressionParts),
    Tag(TagType),
    Unrecognized,
}

/// The characters of an optional string.
pub open spec fn optional_text(text: Option<String>) -> Option<Seq<char>> {
    match text {
        Some(s) => Some(s@),
        None => None,
    }
}

impl View for ExpressionData {
    type V = ExpressionParts;

    open spec fn view(&self) -> ExpressionParts {
        ExpressionParts {
            head: optional_text(self.head),
            variable: self.variable@,
            tail: optional_text(self.tail),
        }
    }
}

impl View for ContentType {
    type V = Content;

    open spec fn view(&self) -> Content {
        match *self {
            ContentType::Literal(text) => Content::Literal(text@),
            ContentType::TemplateVariable(data) => Content::TemplateVariable(data@),
            ContentType::Tag(kind) => Content::Tag(kind),
            ContentType::Unrecognized => Content::Unrecognized,
        }
    }
}

} // verus!
