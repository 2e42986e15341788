use ansi_html::Converter;
use ansi_html::convert;

#[test]
fn new_skip_escape_sets_only_that_field() {
    for b in [false, true] {
        let c = Converter::new().skip_escape(b);
        assert_eq!(c.skip_escape, b);
        assert_eq!(c.skip_optimize, false);
        assert_eq!(c.four_bit_var_prefix, None);
    }
}

#[test]
fn new_skip_optimize_sets_only_that_field() {
    for b in [false, true] {
        let c = Converter::new().skip_optimize(b);
        assert_eq!(c.skip_escape, false);
        assert_eq!(c.skip_optimize, b);
        assert_eq!(c.four_bit_var_prefix, None);
    }
}

#[test]
fn new_prefix_sets_only_that_field() {
    let c = Converter::new().four_bit_var_prefix(Some("term-".to_owned()));
    assert_eq!(c.skip_escape, false);
    assert_eq!(c.skip_optimize, false);
    assert_eq!(c.four_bit_var_prefix, Some("term-".to_owned()));
    let back = c.four_bit_var_prefix(None);
    assert_eq!(back.four_bit_var_prefix, None);
}

#[test]
fn disjoint_setters_commute() {
    let a = Converter::new().skip_escape(true).skip_optimize(true);
    let b = Converter::new().skip_optimize(true).skip_escape(true);
    assert_eq!(a.skip_escape, b.skip_escape);
    assert_eq!(a.skip_optimize, b.skip_optimize);
    assert_eq!(a.four_bit_var_prefix, b.four_bit_var_prefix);
    let input = "<h1>\x1b[31mred\x1b[0m</h1>";
    assert_eq!(a.convert(input).unwrap(), b.convert(input).unwrap());
}

#[test]
fn setter_leaves_receiver_unchanged() {
    let c1 = Converter::new();
    let before = c1.convert("<b>").unwrap();
    let c2 = c1.skip_escape(true);
    let after = c1.convert("<b>").unwrap();
    assert_eq!(before, after);
    assert_eq!(before, "&lt;b&gt;");
    assert_eq!(c2.convert("<b>").unwrap(), "<b>");
}

#[test]
fn free_function_matches_fresh_builder() {
    for input in ["plain", "<h1> \x1b[1mHello \x1b[31mworld! </h1>", "\x1b[31mHello\x1b[0m"] {
        assert_eq!(convert(input).unwrap(), Converter::new().convert(input).unwrap());
    }
}

#[test]
fn conversion_is_deterministic() {
    let input = "<h1> \x1b[1mHello \x1b[31mworld! </h1>";
    assert_eq!(convert(input).unwrap(), convert(input).unwrap());
    let c = Converter::new().skip_escape(true).four_bit_var_prefix(Some("x-".to_owned()));
    assert_eq!(c.convert(input).unwrap(), c.convert(input).unwrap());
}

#[test]
fn rejected_input_gives_wrapped_message() {
    let err = convert("\x1b[99m").unwrap_err();
    assert_eq!(err.message(), "ANSI conversion error: Invalid ANSI: Unexpected code 99");
    assert!(err.message().starts_with("ANSI conversion error: "));
}

#[test]
fn rejected_input_on_builder_gives_wrapped_message() {
    let err = Converter::new().skip_optimize(true).convert("\x1b[99m").unwrap_err();
    assert_eq!(err.message(), "ANSI conversion error: Invalid ANSI: Unexpected code 99");
}

#[test]
fn red_text_becomes_styled_span() {
    let html = convert("\x1b[31mHello\x1b[0m").unwrap();
    assert!(html.contains("Hello"));
    assert!(html.contains("<span style='color:var(--red,#a00)'>"));
    let escaped = convert("<script>").unwrap();
    assert_eq!(escaped, "&lt;script&gt;");
}

#[test]
fn full_conversion_exact_output() {
    let input = "<h1> \x1b[1mHello \x1b[31mworld! </h1>";
    assert_eq!(
        convert(input).unwrap(),
        "&lt;h1&gt; <b>Hello <span style='color:var(--red,#a00)'>world! &lt;/h1&gt;</span></b>",
    );
}

#[test]
fn skip_escape_keeps_markup_literal() {
    let html = Converter::new().skip_escape(true).convert("<b>").unwrap();
    assert!(html.contains("<b>"));
}

#[test]
fn custom_prefix_appears_in_color_variables() {
    let html = Converter::new()
        .four_bit_var_prefix(Some("term-".to_owned()))
        .convert("\x1b[31mHello\x1b[0m")
        .unwrap();
    assert!(html.contains("var(--term-red,#a00)"));
    assert!(!html.contains("var(--red,"));
}
