use amk::scene::draw_log::test_body;
use amk::test::assertions::assert_text_equals;
use amk::test::result::TestError;

#[test]
fn draw_log_in_push_order_passes() {
    let expected = "\n1\n2\n3\n4\n5\n";
    assert!(test_body("1\n2\n3\n4\n5", expected).is_ok());
}

#[test]
fn draw_log_ignores_surrounding_whitespace() {
    assert!(test_body("  \n4\n3\n2\n5\n1\n\n", "\n4\n3\n2\n5\n1\n").is_ok());
}

#[test]
fn draw_log_in_other_order_fails() {
    match test_body("1\n2\n3\n4\n5", "\n4\n3\n2\n5\n1\n") {
        Err(TestError::AssertError { found, expected, error }) => {
            assert_eq!(found, format!("{:?}", "1\n2\n3\n4\n5"));
            assert_eq!(expected, format!("{:?}", "4\n3\n2\n5\n1"));
            assert!(error.is_none());
        }
        _ => panic!("expected an assertion error"),
    }
}

#[test]
fn text_assertion_compares_characters() {
    assert!(assert_text_equals("héllo", "héllo").is_ok());
    assert!(assert_text_equals("héllo", "hello").is_err());
    assert!(assert_text_equals("", "").is_ok());
    assert!(assert_text_equals("a", "ab").is_err());
}
