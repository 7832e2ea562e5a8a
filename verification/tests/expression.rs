use rust_template_engine::{
    get_expression_data, get_index_for_symbol, try_get_expression_data, ExpressionData,
    MalformedExpression,
};

fn parts(head: &str, variable: &str, tail: &str) -> ExpressionData {
    ExpressionData {
        head: Some(head.to_string()),
        variable: variable.to_string(),
        tail: Some(tail.to_string()),
    }
}

fn rebuilt(data: &ExpressionData) -> String {
    format!(
        "{}{{{{{}}}}}{}",
        data.head.as_deref().unwrap(),
        data.variable,
        data.tail.as_deref().unwrap()
    )
}

#[test]
fn index_of_first_symbol() {
    assert_eq!((true, 3), get_index_for_symbol("Hi {{name}}, welcome", '{'));
    assert_eq!((true, 9), get_index_for_symbol("Hi {{name}}, welcome", '}'));
    assert_eq!((true, 0), get_index_for_symbol("{{}}", '{'));
    assert_eq!((true, 2), get_index_for_symbol("{{}}", '}'));
    assert_eq!((true, 3), get_index_for_symbol("abcda", 'd'));
    assert_eq!((true, 0), get_index_for_symbol("abcda", 'a'));
}

#[test]
fn index_of_absent_symbol_is_zero() {
    assert_eq!((false, 0), get_index_for_symbol("no braces", '{'));
    assert_eq!((false, 0), get_index_for_symbol("", '}'));
}

#[test]
fn index_counts_bytes() {
    assert_eq!((true, 2), get_index_for_symbol("é{", '{'));
    assert_eq!((true, 10), get_index_for_symbol("日本語 {{x}}", '{'));
    assert_eq!((true, 3), get_index_for_symbol("日本語", '本'));
    let line = "grüß {{name}}";
    let (found, index) = get_index_for_symbol(line, '{');
    assert!(found);
    assert_eq!(Some(index), line.find('{'));
    assert_eq!("grüß ", &line[..index]);
}

#[test]
fn expression_is_cut_in_three() {
    assert_eq!(parts("Hi ", "name", ", welcome"), get_expression_data("Hi {{name}}, welcome"));
    assert_eq!(parts("", "city", ""), get_expression_data("{{city}}"));
    assert_eq!(parts("<p>", " name ", "</p>"), get_expression_data("<p>{{ name }}</p>"));
}

#[test]
fn empty_variable_name() {
    let data = get_expression_data("{{}}");
    assert_eq!("", data.variable);
    assert_eq!(parts("", "", ""), data);
}

#[test]
fn wide_characters_are_kept_whole() {
    assert_eq!(parts("grüß ", "né", " ≥"), get_expression_data("grüß {{né}} ≥"));
    assert_eq!(parts("日本", "語", "日本"), get_expression_data("日本{{語}}日本"));
}

#[test]
fn cut_goes_by_the_first_braces() {
    assert_eq!(parts("", "a", "b}}"), get_expression_data("{{a}}b}}"));
    assert_eq!(parts("a", "", "c}}"), get_expression_data("a{b}}c}}"));
    assert_eq!(parts("", "{a", "}"), get_expression_data("{{{a}}}"));
    assert_eq!(parts("", "", ""), get_expression_data("{x}y"));
}

#[test]
fn checked_cut_agrees_with_cut() {
    for line in ["Hi {{name}}, welcome", "{{}}", "{{a}}b}}", "grüß {{né}} ≥"] {
        assert_eq!(Ok(get_expression_data(line)), try_get_expression_data(line));
    }
}

#[test]
fn line_without_a_brace_is_malformed() {
    assert_eq!(Err(MalformedExpression), try_get_expression_data(""));
    assert_eq!(Err(MalformedExpression), try_get_expression_data("no braces"));
    assert_eq!(Err(MalformedExpression), try_get_expression_data("{{name"));
    assert_eq!(Err(MalformedExpression), try_get_expression_data("name}}"));
}

#[test]
fn braces_without_room_are_malformed() {
    assert_eq!(Err(MalformedExpression), try_get_expression_data("}{"));
    assert_eq!(Err(MalformedExpression), try_get_expression_data("}}{{"));
    assert_eq!(Err(MalformedExpression), try_get_expression_data("{}"));
    assert_eq!(Err(MalformedExpression), try_get_expression_data("{}}"));
    assert_eq!(Err(MalformedExpression), try_get_expression_data("{{}"));
    assert_eq!(Err(MalformedExpression), try_get_expression_data("{{name}"));
}

#[test]
fn parts_give_the_line_back() {
    for line in ["Hi {{name}}, welcome", "{{}}", "{{city}}", "<p>{{ name }}</p>", "grüß {{né}} ≥"] {
        assert_eq!(line, rebuilt(&get_expression_data(line)));
    }
}

#[test]
fn assembled_line_is_cut_into_its_parts() {
    for (head, variable, tail) in [("Hi ", "name", "!"), ("", "", ""), ("a", "", "b"), ("", "né", "")] {
        let line = format!("{}{{{{{}}}}}{}", head, variable, tail);
        assert_eq!(parts(head, variable, tail), get_expression_data(&line));
    }
}
