use confique::literal::print_expr;
use confique::meta::Expr;

#[test]
fn bool_literals() {
    assert_eq!(print_expr(&Expr::Bool(true)), "true");
    assert_eq!(print_expr(&Expr::Bool(false)), "false");
}

#[test]
fn integer_literals() {
    assert_eq!(print_expr(&Expr::Integer(0)), "0");
    assert_eq!(print_expr(&Expr::Integer(7)), "7");
    assert_eq!(print_expr(&Expr::Integer(1234567890)), "1234567890");
    assert_eq!(print_expr(&Expr::Integer(-42)), "-42");
    assert_eq!(
        print_expr(&Expr::Integer(i64::MAX)),
        "9223372036854775807"
    );
    assert_eq!(
        print_expr(&Expr::Integer(i64::MIN)),
        "-9223372036854775808"
    );
}

#[test]
fn string_literals_are_quoted() {
    assert_eq!(print_expr(&Expr::Str("abc".to_string())), "\"abc\"");
    assert_eq!(print_expr(&Expr::Str("".to_string())), "\"\"");
}

#[test]
fn string_literals_are_escaped() {
    assert_eq!(
        print_expr(&Expr::Str("a\"b\\c\nd\te".to_string())),
        "\"a\\\"b\\\\c\\nd\\te\""
    );
    assert_eq!(
        print_expr(&Expr::Str("\r\u{8}\u{c}".to_string())),
        "\"\\r\\b\\f\""
    );
    assert_eq!(
        print_expr(&Expr::Str("\u{1}\u{1f}\u{7f}".to_string())),
        "\"\\u0001\\u001F\\u007F\""
    );
}

#[test]
fn array_literals() {
    assert_eq!(print_expr(&Expr::Array(vec![])), "[]");
    assert_eq!(
        print_expr(&Expr::Array(vec![Expr::Integer(1)])),
        "[1]"
    );
    assert_eq!(
        print_expr(&Expr::Array(vec![
            Expr::Integer(1),
            Expr::Bool(true),
            Expr::Str("s".to_string()),
        ])),
        "[1, true, \"s\"]"
    );
    assert_eq!(
        print_expr(&Expr::Array(vec![
            Expr::Array(vec![Expr::Integer(1), Expr::Integer(2)]),
            Expr::Array(vec![]),
        ])),
        "[[1, 2], []]"
    );
}
