use mathjax_svg::bridge::{DISPLAY_KEY, FUNC_ID, MESSAGE_KEY, NONE_ERR_MSG};
use mathjax_svg::{
    convert_to_svg, convert_to_svg_inline, Conversion, Error, Phase, Reply, Request, Step,
};

const INTEGRAL: &str = r#"\int_{-\infty}^\infty e^{-x^2}\,\mathrm dx"#;

fn expect_call(c: &Conversion) -> (String, String, bool, String) {
    match c.request() {
        Request::Call { key, config_key, display, text } => (key, config_key, display, text),
        _ => panic!("expected a call"),
    }
}

fn ask(step: Step) -> Conversion {
    match step {
        Step::Ask(c) => c,
        Step::Finish(_) => panic!("expected the conversion to go on"),
    }
}

fn finish(step: Step) -> Result<String, Error> {
    match step {
        Step::Finish(r) => r,
        Step::Ask(_) => panic!("expected the conversion to end"),
    }
}

/// Answers a conversion with the given replies, one after the other.
fn drive(mut c: Conversion, replies: Vec<Reply>) -> Result<String, Error> {
    for reply in replies {
        match c.advance(reply) {
            Step::Ask(next) => c = next,
            Step::Finish(r) => return r,
        }
    }
    panic!("the replies ran out before the end");
}

#[test]
fn display_conversion_calls_entry_with_display_flag() {
    let c = convert_to_svg(INTEGRAL);
    assert_eq!(c.phase(), Phase::Calling);
    assert!(c.display());
    assert_eq!(c.latex(), INTEGRAL);
    let (key, config_key, display, text) = expect_call(&c);
    assert_eq!(key, "cqbuwfsowtpq");
    assert_eq!(key, FUNC_ID);
    assert_eq!(config_key, "display");
    assert_eq!(config_key, DISPLAY_KEY);
    assert!(display);
    assert_eq!(text, INTEGRAL);
}

#[test]
fn inline_conversion_differs_only_in_flag() {
    let d = expect_call(&convert_to_svg(INTEGRAL));
    let i = expect_call(&convert_to_svg_inline(INTEGRAL));
    assert!(!i.2);
    assert_eq!(d.0, i.0);
    assert_eq!(d.1, i.1);
    assert_eq!(d.3, i.3);
    assert_ne!(d.2, i.2);
}

#[test]
fn generic_entry_takes_the_flag() {
    assert!(expect_call(&Conversion::new("x", true)).2);
    assert!(!expect_call(&Conversion::new("x", false)).2);
}

#[test]
fn returned_rendering_is_the_result() {
    let svg = r##"<svg xmlns="http://www.w3.org/2000/svg" width="15.3ex"><g><path d="M0 0"/><use href="#g1"/></g></svg>"##;
    let r = finish(convert_to_svg(INTEGRAL).advance(Reply::Returned(svg.to_string())));
    assert_eq!(r.unwrap(), svg);
    let inline_svg = r#"<svg xmlns="http://www.w3.org/2000/svg" width="12.1ex"></svg>"#;
    let r = finish(convert_to_svg_inline(INTEGRAL).advance(Reply::Returned(inline_svg.to_string())));
    assert_eq!(r.unwrap(), inline_svg);
}

#[test]
fn both_layouts_succeed_on_a_returned_rendering() {
    for c in [convert_to_svg("x^2"), convert_to_svg_inline("x^2")] {
        assert_eq!(drive(c, vec![Reply::Returned("<svg/>".to_string())]).unwrap(), "<svg/>");
    }
}

#[test]
fn same_input_same_output() {
    let a = drive(convert_to_svg("a+b"), vec![Reply::Returned("<svg>ab</svg>".to_string())]);
    let b = drive(convert_to_svg("a+b"), vec![Reply::Returned("<svg>ab</svg>".to_string())]);
    assert_eq!(a.unwrap(), b.unwrap());
    let a = expect_call(&convert_to_svg_inline("a+b"));
    let b = expect_call(&convert_to_svg_inline("a+b"));
    assert_eq!(a, b);
}

#[test]
fn throw_with_message_is_exception_error() {
    let c = ask(convert_to_svg(r"\frac{1").advance(Reply::Threw));
    assert_eq!(c.phase(), Phase::ReadingMessage);
    match c.request() {
        Request::ReadField { field } => {
            assert_eq!(field, "message");
            assert_eq!(field, MESSAGE_KEY);
        }
        _ => panic!("expected a field read"),
    }
    let r = finish(c.advance(Reply::Field(Some("Missing close brace".to_string()))));
    match r {
        Err(Error::V8ExceptionThrown(m)) => assert_eq!(m, "Missing close brace"),
        _ => panic!("expected a thrown error"),
    }
}

#[test]
fn throw_without_message_uses_string_form() {
    let c = ask(convert_to_svg_inline(r"\frac{1").advance(Reply::Threw));
    let c = ask(c.advance(Reply::Field(None)));
    assert_eq!(c.phase(), Phase::ReadingText);
    assert!(matches!(c.request(), Request::ReadText));
    let r = finish(c.advance(Reply::Text("bad input".to_string())));
    match r {
        Err(e) => {
            assert_eq!(e.message(), "bad input");
            assert!(matches!(e, Error::V8ExceptionThrown(_)));
        }
        Ok(_) => panic!("a throw must not succeed"),
    }
}

#[test]
fn throw_without_exception_is_unknown_error() {
    let r = drive(convert_to_svg("x"), vec![Reply::Threw, Reply::NoException]);
    match r {
        Err(e) => {
            assert!(matches!(e, Error::Unreacheable));
            assert_eq!(e.message(), "unknown error");
        }
        Ok(_) => panic!("a throw must not succeed"),
    }
}

#[test]
fn unavailable_value_is_other_error() {
    for replies in [
        vec![Reply::Unavailable],
        vec![Reply::Threw, Reply::Unavailable],
        vec![Reply::Threw, Reply::Field(None), Reply::Unavailable],
    ] {
        match drive(convert_to_svg("x"), replies) {
            Err(Error::Other(m)) => {
                assert_eq!(m, "None returned during v8 processing");
                assert_eq!(m, NONE_ERR_MSG);
            }
            _ => panic!("expected an exchange error"),
        }
    }
}

#[test]
fn throw_never_succeeds_whatever_follows() {
    let r = drive(
        convert_to_svg("x"),
        vec![Reply::Threw, Reply::Returned("<svg/>".to_string()), Reply::Field(Some("m".to_string()))],
    );
    assert!(matches!(r, Err(Error::V8ExceptionThrown(ref m)) if m == "m"));
}

#[test]
fn reply_out_of_turn_leaves_conversion_in_place() {
    let c = ask(convert_to_svg("y").advance(Reply::Text("t".to_string())));
    assert_eq!(c.phase(), Phase::Calling);
    let c = ask(c.advance(Reply::NoException));
    let c = ask(c.advance(Reply::Field(Some("m".to_string()))));
    assert_eq!(expect_call(&c).3, "y");
    let c = ask(c.advance(Reply::Threw));
    let c = ask(c.advance(Reply::Returned("<svg/>".to_string())));
    assert_eq!(c.phase(), Phase::ReadingMessage);
}

#[test]
fn empty_text_is_passed_as_is() {
    assert_eq!(expect_call(&convert_to_svg("")).3, "");
}
