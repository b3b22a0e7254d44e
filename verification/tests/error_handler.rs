use tide::error::{handler_name, ErrorHandler, ErrorMapper, Handled};

struct Teapot;

impl ErrorMapper<String> for Teapot {
    type Output = (u16, String);

    fn call(&self, error: &String) -> (u16, String) {
        (418, error.clone())
    }
}

#[test]
fn error_of_handled_type_is_mapped() {
    let h = ErrorHandler::<String, Teapot>::new(Teapot);
    let err = "relative URL without a base".to_string();
    match h.handle(Some(&err)) {
        Handled::Mapped((code, body)) => {
            assert_eq!(code, 418);
            assert_eq!(body, "relative URL without a base");
        }
        Handled::Unchanged => panic!("expected the mapper's result"),
    }
}

#[test]
fn other_responses_pass_unchanged() {
    let h = ErrorHandler::<String, Teapot>::new(Teapot);
    assert!(matches!(h.handle(None), Handled::Unchanged));
}

#[test]
fn handler_names() {
    assert_eq!(handler_name("url::parser::ParseError"), "ErrorHandler for url::parser::ParseError");
    assert_eq!(handler_name(""), "ErrorHandler for ");
}

struct IoMapper;

impl ErrorMapper<std::io::Error> for IoMapper {
    type Output = String;

    fn call(&self, error: &std::io::Error) -> String {
        format!("mapped: {}", error)
    }
}

#[test]
fn handled_error_type_is_downcast_and_mapped() {
    let h = ErrorHandler::<std::io::Error, IoMapper>::new(IoMapper);
    let err = http_types::Error::new(
        http_types::StatusCode::InternalServerError,
        std::io::Error::new(std::io::ErrorKind::Other, "disk gone"),
    );
    match h.handle_error(Some(&err)) {
        Handled::Mapped(s) => assert_eq!(s, "mapped: disk gone"),
        Handled::Unchanged => panic!("expected the mapper's result"),
    }
}

#[test]
fn other_error_types_pass_unchanged() {
    let h = ErrorHandler::<std::io::Error, IoMapper>::new(IoMapper);
    let err = http_types::Error::from_str(http_types::StatusCode::BadRequest, "not an io error");
    assert!(matches!(h.handle_error(Some(&err)), Handled::Unchanged));
    assert!(matches!(h.handle_error(None), Handled::Unchanged));
}
