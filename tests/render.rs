use pikt::render::from_engine;
use pikt::{render, render_with, Flags, OptionsBuilder, PiktError, PiktErrorReason};

const BOX_SVG: &str = "<svg xmlns='http://www.w3.org/2000/svg' class=\"pikchr\" viewBox=\"0 0 112.32 76.32\">\n<path d=\"M2,74L110,74L110,2L2,2Z\"  style=\"fill:none;stroke-width:2.16;stroke:rgb(0,0,0);\" />\n<text x=\"56\" y=\"38\" text-anchor=\"middle\" fill=\"rgb(0,0,0)\" dominant-baseline=\"central\">pikchr</text>\n</svg>\n";

#[test]
fn simple_box() -> Result<(), PiktError> {
    let source = "box \"pikchr\"";
    let expected = BOX_SVG;

    let actual = render(source)?;

    assert_eq!(&actual, expected);

    Ok(())
}

#[test]
fn input_with_nul() {
    let source = "box \"pikchr\"\0";

    let actual = render(source);

    assert!(actual.is_err(), "expected a nul pointer error");
}

#[test]
fn malformed_input() {
    let source = "box 'pikchr'";

    let actual = render(source);

    assert_eq!(
        actual.expect_err("expected unknown token"),
        PiktError::new(1, 5, PiktErrorReason::TokenUnknown)
    );
}

#[test]
fn division_by_zero() {
    let source = r#"box "pikchr"
        arrow from first box to (0/0, 0)
        "#;

    let actual = render(source);

    assert_eq!(
        actual.expect_err("expected div by zero err"),
        PiktError::new(2, 36, PiktErrorReason::DivisionByZero)
    );
}

#[test]
fn syntax_error() {
    let source = r#"circ "1""#;

    let actual = render(source);

    assert_eq!(
        actual.expect_err("expected syntax error"),
        PiktError::new(1, 8, PiktErrorReason::SyntaxError)
    );
}

#[test]
fn unknown_object() {
    let source = r#"arrow from A to B"#;

    let actual = render(source);

    assert_eq!(
        actual.expect_err("expected unknown object"),
        PiktError::new(1, 12, PiktErrorReason::UnknownObject)
    );
}

#[test]
fn box_dark_mode() -> Result<(), PiktError> {
    let source = "box \"pikchr\"";
    let expected = "<svg xmlns='http://www.w3.org/2000/svg' class=\"pikchr\" viewBox=\"0 0 112.32 76.32\">\n<path d=\"M2,74L110,74L110,2L2,2Z\"  style=\"fill:none;stroke-width:2.16;stroke:rgb(255,255,255);\" />\n<text x=\"56\" y=\"38\" text-anchor=\"middle\" fill=\"rgb(255,255,255)\" dominant-baseline=\"central\">pikchr</text>\n</svg>\n";
    let mut flags = Flags::default();
    flags.insert(Flags::dark_mode());

    let mut builder = OptionsBuilder::default();
    builder.flags(flags);
    let options = builder.build();

    let actual = render_with(source, options)?;

    assert_eq!(&actual, expected);

    Ok(())
}

#[test]
fn nul_offset_is_reported() {
    let actual = render("box\0 \"pikchr\"");
    assert_eq!(
        actual.expect_err("expected a nul byte error"),
        PiktError::new(0, 0, PiktErrorReason::IncompatibleInput(3))
    );
}

#[test]
fn nul_in_class_is_reported_first() {
    let mut builder = OptionsBuilder::default();
    builder.class("ab\0c");
    let actual = render_with("box\0", builder.build());
    assert_eq!(
        actual.expect_err("expected a nul byte error"),
        PiktError::new(0, 0, PiktErrorReason::IncompatibleInput(2))
    );
}

#[test]
fn custom_classes_reach_the_root_element() {
    let mut builder = OptionsBuilder::default();
    builder.classes(&["foo", "bar"]);
    let svg = render_with("box \"pikchr\"", builder.build()).expect("expected svg");
    assert!(svg.starts_with("<svg xmlns='http://www.w3.org/2000/svg' class=\"pikchr foo bar\" viewBox=\"0 0 112.32 76.32\">"));
}

#[test]
fn rendering_twice_gives_identical_output() {
    let source = "box at (0,0) \"a\"\ncircle at (2,0) \"b\"\n";
    let first = render(source).expect("expected svg");
    let second = render(source).expect("expected svg");
    assert_eq!(first, second);
    assert!(first.starts_with("<svg"));
}

#[test]
fn errors_repeat_identically() {
    let first = render("arrow from A to B");
    let second = render("arrow from A to B");
    assert_eq!(first, second);
}

#[test]
fn second_at_is_refused() {
    let actual = render("box at (0,0) at (1,1)");
    let err = actual.expect_err("expected a position conflict");
    assert_eq!(err.reason(), &PiktErrorReason::PositionAlreadyFixedByAt);
    assert_eq!(err.line(), 1);
}

#[test]
fn literal_zero_divisor_is_refused() {
    let actual = render("box width 1/0");
    let err = actual.expect_err("expected division by zero");
    assert_eq!(err.reason(), &PiktErrorReason::DivisionByZero);
    assert_eq!(err.line(), 1);
    assert_eq!(err.column(), 12);
}

#[test]
fn ten_macro_arguments_are_refused() {
    let actual = render("define m { box }\nm(1,2,3,4,5,6,7,8,9,10)\n");
    let err = actual.expect_err("expected too many macro arguments");
    assert_eq!(err.reason(), &PiktErrorReason::MacroTooManyArguments);
}

#[test]
fn nine_macro_arguments_are_accepted() {
    let actual = render("define m { box }\nm(1,2,3,4,5,6,7,8,9)\n");
    assert!(actual.is_ok());
}

#[test]
fn sublist_keeps_the_parent_cursor_flowing() {
    let with_sublist = render("box\n[ box; box ]\nbox\n").expect("expected svg");
    let with_wide_box = render("box\nbox width 1.5in\nbox\n").expect("expected svg");
    let last_path = |svg: &str| svg.lines().filter(|l| l.starts_with("<path")).last().map(|l| l.to_string());
    assert_eq!(with_sublist.matches("<path").count(), 4);
    assert_eq!(last_path(&with_sublist), last_path(&with_wide_box));
}

#[test]
fn dark_mode_keeps_geometry() {
    let light = render("box \"pikchr\"").expect("expected svg");
    let mut builder = OptionsBuilder::default();
    builder.flags(Flags::dark_mode());
    let dark = render_with("box \"pikchr\"", builder.build()).expect("expected svg");
    assert_eq!(light.replace("rgb(0,0,0)", "rgb(255,255,255)"), dark);
}

#[test]
fn engine_svg_passes_through() {
    let r = from_engine(Ok("<svg/>".to_string()));
    assert_eq!(r, Ok("<svg/>".to_string()));
}

#[test]
fn engine_diagnostic_becomes_an_error() {
    let text = "/*    1 */  circ \"1\"\n                  ^\nERROR: syntax error\n";
    let r = from_engine(Err(text.to_string()));
    assert_eq!(r, Err(PiktError::new(1, 8, PiktErrorReason::SyntaxError)));
}

#[test]
fn error_far_down_keeps_its_line() {
    let source = "box\nbox\nbox\nbox\nbox\nbox\nbox\nbox\nbox\nbox width 1/0\n";
    let err = render(source).expect_err("expected division by zero");
    assert_eq!(err, PiktError::new(10, 13, PiktErrorReason::DivisionByZero));
}

#[test]
fn echoed_source_text_is_not_a_message() {
    let source = "box \"Out of memory\"\nbox at (0,0) at (1,1)\n";
    let err = render(source).expect_err("expected a position conflict");
    assert_eq!(err.reason(), &PiktErrorReason::PositionAlreadyFixedByAt);
    assert_eq!(err.line(), 2);
}
