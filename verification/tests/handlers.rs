use rusteron::bindings::CHandler;
use rusteron::generator::{Arg, ArgProcessing, CWrapper};
use rusteron::handlers::generate_handlers;

fn arg(name: &str, ty: &str) -> Arg {
    Arg {
        name: name.to_string(),
        c_type: ty.to_string(),
        processing: ArgProcessing::Default,
    }
}

fn handler(args: Vec<Arg>) -> CHandler {
    CHandler {
        c_type_name: "aeron_on_close_client_t".to_string(),
        args,
        return_type: arg("", "()"),
        docs: Vec::new(),
    }
}

#[test]
fn handler_code_names_trait_logger_and_trampolines() {
    let mut h = handler(vec![arg("clientd", Arg::C_VOID), arg("count", "i32")]);
    h.docs = vec!["Called on close.".to_string()];
    let ws: Vec<CWrapper> = vec![];
    let text = generate_handlers(&h, &ws);
    assert!(text.starts_with("#[doc = \"Called on close.\"]\n///\n///\n"));
    assert!(text.contains("pub trait AeronCloseClientCallback { fn handle_aeron_on_close_client(&mut self, count: i32) -> (); }"));
    assert!(text.contains("pub struct AeronCloseClientLogger;"));
    assert!(text.contains("pub fn no_close_client_handler() -> Option<&'static Handler<AeronCloseClientLogger>>"));
    assert!(text.contains("unsafe extern \"C\" fn aeron_on_close_client_t_callback<F: AeronCloseClientCallback>(clientd: * mut :: std :: os :: raw :: c_void, count: i32) -> ()"));
    assert!(text.contains("closure.handle_aeron_on_close_client(count.into()) }"));
    assert!(text.contains("_callback_for_once_closure<F: FnMut(i32) -> ()>"));
    assert!(text.contains("[format!(\"{} : {:?}\", stringify!(count), count)]"));
}

#[test]
fn handler_with_primitive_out_pointer_gets_no_code() {
    let h = handler(vec![arg("clientd", Arg::C_VOID), arg("out", "* mut i64")]);
    let ws: Vec<CWrapper> = vec![];
    assert_eq!("", generate_handlers(&h, &ws));
}

#[test]
fn handler_without_closure_arguments_logs_nothing() {
    let h = handler(vec![arg("clientd", Arg::C_VOID)]);
    let ws: Vec<CWrapper> = vec![];
    let text = generate_handlers(&h, &ws);
    assert!(text.contains("[\"\"].join("));
    assert!(text.contains("(&mut self, ) -> ()"));
}

#[test]
fn handler_docs_are_written_as_string_literal_tokens() {
    let mut h = handler(vec![arg("clientd", Arg::C_VOID), arg("count", "i32")]);
    h.docs = vec!["a\u{0}7 'q' \"z\"\nb\u{0}x".to_string()];
    let ws: Vec<CWrapper> = vec![];
    let text = generate_handlers(&h, &ws);
    assert!(text.starts_with("#[doc = \"a\\x007 'q' \\\"z\\\"\"]\n#[doc = \"b\\0x\"]\n"));
}
