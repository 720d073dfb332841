use pytypecheck::{
    check, gettype, gettype_explicit, interpret, tokenize, PythonType, ReportType, Setting,
};

fn toks(words: &[&str]) -> Vec<String> {
    words.iter().map(|w| w.to_string()).collect()
}

#[test]
fn quote_anywhere_makes_a_string() {
    assert_eq!(gettype("ab'c"), Ok(PythonType::Str));
    assert_eq!(gettype("12\"3"), Ok(PythonType::Str));
    assert_eq!(gettype("'True'"), Ok(PythonType::Str));
}

#[test]
fn bool_word_inside_text() {
    assert_eq!(gettype("isTrue"), Ok(PythonType::Bool));
    assert_eq!(gettype("False1.5"), Ok(PythonType::Bool));
    assert_eq!(gettype("false"), Err(()));
}

#[test]
fn empty_literal_is_int() {
    assert_eq!(gettype(""), Ok(PythonType::Int));
    assert_eq!(gettype("___"), Ok(PythonType::Int));
}

#[test]
fn float_needs_digit_after_point() {
    assert_eq!(gettype(".5"), Ok(PythonType::Float));
    assert_eq!(gettype("a.5"), Ok(PythonType::Float));
    assert_eq!(gettype("5."), Err(()));
    assert_eq!(gettype("1_000.000_1"), Ok(PythonType::Float));
}

#[test]
fn unicode_decimal_digits_count_as_digits() {
    assert_eq!(gettype("\u{663}"), Ok(PythonType::Int));
    assert_eq!(gettype("1_\u{663}"), Ok(PythonType::Int));
    assert_eq!(gettype("1.\u{663}"), Ok(PythonType::Float));
    assert_eq!(gettype("\u{663}.\u{663}"), Ok(PythonType::Float));
}

#[test]
fn unknown_literal_fails() {
    assert_eq!(gettype("varx"), Err(()));
    assert_eq!(gettype("add(1)"), Err(()));
}

#[test]
fn annotation_names() {
    assert_eq!(gettype_explicit("int"), Ok(PythonType::Int));
    assert_eq!(gettype_explicit("str"), Ok(PythonType::Str));
    assert_eq!(gettype_explicit("bool"), Ok(PythonType::Bool));
    assert_eq!(gettype_explicit("float"), Ok(PythonType::Float));
    assert_eq!(gettype_explicit("foobar"), Err(()));
    assert_eq!(gettype_explicit("Int"), Err(()));
    assert_eq!(gettype_explicit(""), Err(()));
}

#[test]
fn tokenize_empty_and_blank() {
    assert_eq!(tokenize(""), Vec::<String>::new());
    assert_eq!(tokenize("   \t "), Vec::<String>::new());
    assert_eq!(tokenize("# only a comment"), Vec::<String>::new());
}

#[test]
fn tokenize_quotes_are_normalised() {
    assert_eq!(tokenize("s = \"a b\""), vec!["s", "=", "'a b'"]);
}

#[test]
fn tokenize_punctuation_inside_string_splits() {
    assert_eq!(tokenize("s = 'a=b'"), vec!["s", "=", "'a", "=", "b'"]);
}

#[test]
fn tokenize_escape_stays_pending() {
    // after a backslash, quotes no longer open or close strings
    assert_eq!(tokenize("a\\b 'c d'"), vec!["a\\b", "'c", "d'"]);
}

#[test]
fn tokenize_hash_inside_string_still_ends_line() {
    assert_eq!(tokenize("s = 'a#b'"), vec!["s", "=", "'a"]);
}

#[test]
fn interpret_bare_declaration_is_no_statement() {
    assert_eq!(interpret(tokenize("x: int")), None);
}

#[test]
fn interpret_untyped_value_is_skipped() {
    assert_eq!(interpret(tokenize("x: int = y")), None);
    assert_eq!(interpret(tokenize("x: foo = 1")), None);
    assert_eq!(interpret(tokenize("x = y")), None);
}

#[test]
fn interpret_malformed_definitions_are_skipped() {
    assert_eq!(interpret(tokenize("def f")), None);
    assert_eq!(interpret(tokenize("def f(x: int")), None);
    assert_eq!(interpret(tokenize("def f(x: foo)")), None);
    assert_eq!(interpret(tokenize("def f(x=y)")), None);
    assert_eq!(interpret(tokenize("def f() -> foo:")), None);
}

#[test]
fn interpret_definition_without_return_type() {
    assert_eq!(
        interpret(tokenize("def f(a: str = 'q', b = 1.5):")),
        Some(Setting::FunctionDefinition(
            "f".to_string(),
            vec![
                Setting::VariableDefinition("a".to_string(), PythonType::Str, PythonType::Str),
                Setting::Assignment("b".to_string(), PythonType::Float),
            ],
            None,
        ))
    );
}

#[test]
fn interpret_other_shapes() {
    assert_eq!(interpret(toks(&[])), None);
    assert_eq!(interpret(toks(&["print", "(", "x", ")"])), None);
    assert_eq!(
        interpret(toks(&["flag", "=", "True"])),
        Some(Setting::Assignment("flag".to_string(), PythonType::Bool))
    );
}

#[test]
fn check_reports_only_the_disparity() {
    let reports = check("x: int = 'a'\ny: str = 'a'");
    assert_eq!(reports.len(), 1);
    assert_eq!(reports[0].i, 1);
    assert_eq!(reports[0].symbol, "x");
    assert_eq!(reports[0].line, "x: int = 'a'");
    assert_eq!(reports[0].t, ReportType::DeclarationAssignmentDisparity);
}

#[test]
fn check_splits_on_semicolons() {
    let reports = check("a: int = 1; b: float = 2;c: bool = True\nd: str = 3");
    assert_eq!(reports.len(), 2);
    assert_eq!((reports[0].i, reports[0].symbol.as_str()), (2, "b"));
    assert_eq!(reports[0].line, " b: float = 2");
    assert_eq!((reports[1].i, reports[1].symbol.as_str()), (4, "d"));
}

#[test]
fn check_skips_lines_it_cannot_type() {
    let reports = check("def f(x: foo)\nx: int = y\nz: int = 1.5\n");
    assert_eq!(reports.len(), 1);
    assert_eq!(reports[0].i, 3);
    assert_eq!(reports[0].symbol, "z");
}

#[test]
fn check_empty_text() {
    assert!(check("").is_empty());
}

#[test]
fn check_twice_gives_the_same_reports() {
    let text = "x: int = 'a'\ny: bool = 2\nz = 3";
    let a = check(text);
    let b = check(text);
    assert_eq!(a.len(), b.len());
    for (p, q) in a.iter().zip(b.iter()) {
        assert_eq!((p.t, p.i, &p.line, &p.symbol), (q.t, q.i, &q.line, &q.symbol));
    }
}
