use pikt::{PiktError, PiktErrorReason};

#[test]
fn diagnostic_position_and_reason() {
    let text = "/*    1 */  box 'pikchr'\n               ^\nERROR: unrecognized token\n";
    let err = PiktError::parse_diagnostic(text);
    assert_eq!(err, PiktError::new(1, 5, PiktErrorReason::TokenUnknown));
}

#[test]
fn diagnostic_counts_numbered_lines() {
    let text = "/*    1 */  box \"pikchr\"\n/*    2 */          arrow from first box to (0/0, 0)\n                                              ^\nERROR: division by zero\n";
    let err = PiktError::parse_diagnostic(text);
    assert_eq!(err, PiktError::new(2, 36, PiktErrorReason::DivisionByZero));
}

#[test]
fn diagnostic_with_unknown_message() {
    let err = PiktError::parse_diagnostic("/*    1 */  x\n           ^\nERROR: something new here\n");
    assert_eq!(
        err,
        PiktError::new(1, 1, PiktErrorReason::Other("something new here".to_string()))
    );
}

#[test]
fn diagnostic_without_message() {
    let err = PiktError::parse_diagnostic("");
    assert_eq!(
        err,
        PiktError::new(0, 0, PiktErrorReason::Other("unknown error".to_string()))
    );
}

#[test]
fn diagnostic_stack_overflow() {
    let err = PiktError::parse_diagnostic("/*    1 */  x\nERROR: parser stack overflow\n");
    assert_eq!(err, PiktError::new(0, 0, PiktErrorReason::ParserStackOverflow));
}

#[test]
fn diagnostic_out_of_memory() {
    let err = PiktError::parse_diagnostic("\nOut of memory\n");
    assert_eq!(err, PiktError::new(0, 0, PiktErrorReason::OutOfMemory));
}

#[test]
fn diagnostic_crlf_lines() {
    let err = PiktError::parse_diagnostic("/*    1 */  a\r\n              ^\r\nERROR: no such object\r\n");
    assert_eq!(err, PiktError::new(1, 4, PiktErrorReason::UnknownObject));
}

#[test]
fn diagnostic_short_caret_line() {
    let err = PiktError::parse_diagnostic("^\nERROR: syntax error");
    assert_eq!(err, PiktError::new(0, 0, PiktErrorReason::SyntaxError));
}

#[test]
fn messages_map_to_reasons() {
    let cases = [
        ("too many path elements", PiktErrorReason::NoPriorPathPoints),
        ("use \"at\" to position this object", PiktErrorReason::MissingAt),
        ("value too big - max '1000th'", PiktErrorReason::OrdinalOutOfBounds),
        ("recursive macro definition", PiktErrorReason::MacroRecursive),
        ("too many macro arguments - max 9", PiktErrorReason::MacroTooManyArguments),
    ];
    for (m, reason) in cases {
        assert_eq!(PiktErrorReason::from_message(&m.to_string()), reason);
    }
}

#[test]
fn diagnostic_from_str() {
    let err: PiktError = "/*    1 */  circ \"1\"\n                  ^\nERROR: syntax error\n"
        .parse()
        .expect("parsing a diagnostic never fails");
    assert_eq!(err, PiktError::new(1, 8, PiktErrorReason::SyntaxError));
}

#[test]
fn diagnostic_line_from_prefix() {
    let text = "/*    8 */  box\n/*    9 */  box\n/*   10 */  box width 1/0\n                      ^\nERROR: division by zero\n";
    let err = PiktError::parse_diagnostic(text);
    assert_eq!(err, PiktError::new(10, 12, PiktErrorReason::DivisionByZero));
}

#[test]
fn diagnostic_ignores_context_after_error() {
    let text = "/*    3 */  m(1)\n                 ^\nERROR: no such object\nCalled from:\n/*    1 */  x\n            ^\n";
    let err = PiktError::parse_diagnostic(text);
    assert_eq!(err, PiktError::new(3, 7, PiktErrorReason::UnknownObject));
}

#[test]
fn diagnostic_phrase_in_echoed_source_is_ignored() {
    let text = "/*    1 */  box \"Out of memory\" \"parser stack overflow\"\n            ^\nERROR: syntax error\n";
    let err = PiktError::parse_diagnostic(text);
    assert_eq!(err, PiktError::new(1, 2, PiktErrorReason::SyntaxError));
}

#[test]
fn from_str_unknown_object_diagnostic() {
    let text = "/*    1 */  arrow from A to B\n".to_string() + &" ".repeat(22) + "^\nERROR: no such object\n";
    let err: PiktError = text.parse().expect("parsing a diagnostic never fails");
    assert_eq!(err, PiktError::new(1, 12, PiktErrorReason::UnknownObject));
}

#[test]
fn from_str_division_diagnostic() {
    let text = "/*    1 */  box \"pikchr\"\n/*    2 */          arrow from first box to (0/0, 0)\n".to_string()
        + &" ".repeat(46)
        + "^\nERROR: division by zero\n";
    let err: PiktError = text.parse().expect("parsing a diagnostic never fails");
    assert_eq!(err, PiktError::new(2, 36, PiktErrorReason::DivisionByZero));
}

#[test]
fn from_str_path_messages_share_a_reason() {
    for m in ["no prior path points", "too many path elements"] {
        let text = format!("/*    1 */  x\n            ^\nERROR: {}\n", m);
        let err: PiktError = text.parse().expect("parsing a diagnostic never fails");
        assert_eq!(err.reason(), &PiktErrorReason::NoPriorPathPoints);
    }
}
