use migration_engine::template::{message_template_variables, template_format_string};

fn assert_template_variables(template: &str, expected: &[&str]) {
    let result: Vec<String> = message_template_variables(template);
    assert_eq!(result, expected);
}

#[test]
fn message_template_variables_works() {
    assert_template_variables("no variables", &[]);
    assert_template_variables("${abc}_def", &["abc"]);
    assert_template_variables("abc${_def}", &["_def"]);
    assert_template_variables("some ${ code } sample", &[] as &[&str]);
    assert_template_variables("positional parameter ${} ", &[] as &[&str]);
    assert_template_variables(
        "Message with ${multiple_variables} to ${substitute}",
        &["multiple_variables", "substitute"],
    );
}

#[test]
fn template_variables_are_sorted_and_unique() {
    assert_template_variables("${zeta} ${alpha} ${zeta} ${Beta}", &["Beta", "alpha", "zeta"]);
}

#[test]
fn template_variables_follow_the_pattern() {
    assert_template_variables("${${a}} $x{y} ${b c} ${d}}", &["a", "d"]);
    assert_template_variables("Table ${table} in ${db}", &["db", "table"]);
}

#[test]
fn format_string_replaces_dollar_braces() {
    assert_eq!(template_format_string("Table ${table} is ${state}"), "Table {table} is {state}");
    assert_eq!(template_format_string("no variables"), "no variables");
    assert_eq!(template_format_string("$${x}"), "${x}");
    assert_eq!(template_format_string("cost: $5 {x}"), "cost: $5 {x}");
}
