//! Line-by-line classification of templated text.
//!
//! A line is literal text, a variable expression (`{{ name }}`), a tag
//! (`{% for .. %}`, `{% if .. %}`) or unrecognized. A variable expression is cut
//! into the text before it, the name, and the text after it. Every line is
//! looked at by itself; nothing is kept from one line to the next.
//!
//! The contracts speak of a line as its sequence of characters.

pub mod classifier;
pub mod content;
pub mod expression;
pub mod text;

pub use classifier::{check_matching_pair, check_symbol_string, get_content_type};
pub use content::{ContentType, ExpressionData, TagType};
pub use expression::{
    get_expression_data, get_index_for_symbol, try_get_expression_data, MalformedExpression,
};
