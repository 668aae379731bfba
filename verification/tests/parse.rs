use rusteron::bindings::CHandler;
use rusteron::generator::{Arg, ArgProcessing, CWrapper, Method};
use rusteron::parse::parse_bindings;

const SMALL: &str = r#"
/// A foo.
#[repr(C)]
pub struct aeron_foo_stct {
    pub x: i32,
}
/// Foo alias.
pub type aeron_foo_t = aeron_foo_stct;
/// Called on x.
pub type aeron_on_x_t = ::std::option::Option<unsafe extern "C" fn(clientd: *mut ::std::os::raw::c_void, x: i32)>;
extern "C" {
    /// Close it.
    pub fn aeron_foo_close(foo: *mut aeron_foo_t) -> ::std::os::raw::c_int;
    /// Version.
    pub fn aeron_version_major() -> i32;
}
"#;

fn arg(name: &str, c_type: &str) -> Arg {
    Arg { name: name.to_string(), c_type: c_type.to_string(), processing: ArgProcessing::Default }
}

fn wrapper<'a>(ws: &'a [CWrapper], key: &str) -> &'a CWrapper {
    ws.iter().find(|w| w.c_type_name == key).expect("wrapper present")
}

#[test]
fn parse_bindings_reads_structs_aliases_callbacks_and_functions() {
    let (ws, ms, hs) = parse_bindings(SMALL).expect("bindings parse");
    assert_eq!(ws.len(), 1);
    let w = &ws[0];
    assert_eq!(w.class_name, "AeronFoo");
    assert_eq!(w.c_type_name, "aeron_foo_t");
    assert_eq!(w.without_name, "aeron_foo");
    assert_eq!(w.fields, vec![arg("x", "i32")]);
    assert_eq!(w.docs, vec!["A foo.".to_string(), "Foo alias.".to_string()]);
    assert_eq!(w.methods.len(), 1);
    let m: &Method = &w.methods[0];
    assert_eq!(m.fn_name, "aeron_foo_close");
    assert_eq!(m.struct_method_name, "close");
    assert_eq!(m.return_type, arg("", ":: std :: os :: raw :: c_int"));
    assert_eq!(m.arguments, vec![arg("foo", "* mut aeron_foo_t")]);
    assert_eq!(m.docs, vec!["Close it.".to_string()]);

    assert_eq!(ms.len(), 1);
    assert_eq!(ms[0].fn_name, "aeron_version_major");
    assert_eq!(ms[0].struct_method_name, "");
    assert_eq!(ms[0].return_type, arg("", "i32"));
    assert!(ms[0].arguments.is_empty());
    assert_eq!(ms[0].docs, vec!["Version.".to_string()]);

    assert_eq!(hs.len(), 1);
    let h: &CHandler = &hs[0];
    assert_eq!(h.c_type_name, "aeron_on_x_t");
    assert_eq!(h.args, vec![arg("clientd", "* mut :: std :: os :: raw :: c_void"), arg("x", "i32")]);
    assert_eq!(h.return_type, arg("", "()"));
    assert_eq!(h.docs, vec!["Called on x.".to_string()]);
}

#[test]
fn parse_bindings_groups_callback_arguments() {
    let text = r#"
pub struct aeron_client_stct { pub a: i32, }
pub type aeron_client_t = aeron_client_stct;
pub type aeron_on_y_t = ::std::option::Option<unsafe extern "C" fn(clientd: *mut ::std::os::raw::c_void)>;
extern "C" {
    pub fn aeron_client_on(client: *mut aeron_client_t, handler: aeron_on_y_t, clientd: *mut ::std::os::raw::c_void) -> i32;
}
"#;
    let (ws, _, _) = parse_bindings(text).expect("bindings parse");
    let m = &wrapper(&ws, "aeron_client_t").methods[0];
    assert_eq!(m.struct_method_name, "on");
    assert_eq!(m.arguments.len(), 3);
    assert_eq!(m.arguments[0].processing, ArgProcessing::Default);
    let pair = vec![arg("handler", "aeron_on_y_t"), arg("clientd", "* mut :: std :: os :: raw :: c_void")];
    assert_eq!(m.arguments[1].processing, ArgProcessing::Handler(pair.clone()));
    assert_eq!(m.arguments[2].processing, ArgProcessing::Handler(pair));
}

#[test]
fn parse_bindings_rejects_text_that_is_no_rust_file() {
    assert!(parse_bindings("pub fn {").is_none());
}

#[test]
fn parse_bindings_skips_media_driver_internals_and_other_abis() {
    let text = r#"
pub struct aeron_thread_stct { pub a: i32, }
pub type aeron_udp_channel_on_x_t = ::std::option::Option<unsafe extern "C" fn(clientd: *mut ::std::os::raw::c_void)>;
extern "Rust" {
    pub fn aeron_thread_start(t: *mut aeron_thread_t) -> i32;
}
"#;
    let (ws, ms, hs) = parse_bindings(text).expect("bindings parse");
    assert!(ws.is_empty());
    assert!(ms.is_empty());
    assert!(hs.is_empty());
}

#[test]
fn parser_media_driver() {
    let text = r#"
pub struct aeron_image_fragment_assembler_stct { pub delegate: i32, }
pub type aeron_image_fragment_assembler_t = aeron_image_fragment_assembler_stct;
"#;
    let (ws, _, _) = parse_bindings(text).expect("bindings parse");
    assert_eq!(
        "AeronImageFragmentAssembler",
        wrapper(&ws, "aeron_image_fragment_assembler_t").class_name
    );
}

#[test]
fn parser_client() {
    let text = r#"
pub struct aeron_image_fragment_assembler_stct { pub delegate: i32, }
pub type aeron_image_fragment_assembler_t = aeron_image_fragment_assembler_stct;
pub type aeron_fragment_handler_t = ::std::option::Option<unsafe extern "C" fn(clientd: *mut ::std::os::raw::c_void, length: usize)>;
pub type aeron_error_handler_t = ::std::option::Option<unsafe extern "C" fn(clientd: *mut ::std::os::raw::c_void, errcode: ::std::os::raw::c_int)>;
"#;
    let (ws, _, hs) = parse_bindings(text).expect("bindings parse");
    assert_eq!(
        "AeronImageFragmentAssembler",
        wrapper(&ws, "aeron_image_fragment_assembler_t").class_name
    );
    assert!(hs.len() > 1);
}

#[test]
fn parsed_wrappers_come_in_type_name_order() {
    let text = r#"
pub struct aeron_zeta_stct { pub a: i32, }
pub struct aeron_alpha_stct { pub b: i32, }
pub type aeron_mid_t = aeron_mid_stct;
pub struct aeron_alpha_stct { pub c: i64, }
"#;
    let (ws, _, _) = parse_bindings(text).expect("bindings parse");
    let names: Vec<&str> = ws.iter().map(|w| w.c_type_name.as_str()).collect();
    assert_eq!(names, vec!["aeron_alpha_t", "aeron_mid_t", "aeron_zeta_t"]);
    assert_eq!(wrapper(&ws, "aeron_alpha_t").fields, vec![arg("c", "i64")]);
}

const CLIENT_LIKE: &str = r#"
/// Assembles fragments of an image.
pub struct aeron_image_fragment_assembler_stct { pub delegate: i32, }
pub type aeron_image_fragment_assembler_t = aeron_image_fragment_assembler_stct;
pub type aeron_on_close_client_t = ::std::option::Option<unsafe extern "C" fn(clientd: *mut ::std::os::raw::c_void)>;
extern "C" {
    /// Close the assembler.
    pub fn aeron_image_fragment_assembler_delete(assembler: *mut aeron_image_fragment_assembler_t) -> ::std::os::raw::c_int;
}
"#;

fn generate_all(ws: &[rusteron::generator::CWrapper], hs: &Vec<CHandler>, keep: impl Fn(&str) -> bool) -> String {
    let mut out = String::new();
    for (p, w) in ws.iter().filter(|w| keep(&w.c_type_name)).enumerate() {
        out.push_str(&rusteron::class_code::generate_class_code(w, ws, hs, "// common\n", p == 0, true, true));
    }
    for h in hs {
        out.push_str(&rusteron::handlers::generate_handlers(h, ws));
    }
    out
}

#[test]
fn lib_client() {
    let (ws, ms, hs) = parse_bindings(CLIENT_LIKE).expect("bindings parse");
    assert_eq!(
        "AeronImageFragmentAssembler",
        wrapper(&ws, "aeron_image_fragment_assembler_t").class_name
    );
    assert_eq!(0, ms.len(), "expected all methods to have been matched {:#?}", ms);
    let code = generate_all(&ws, &hs, |_| true);
    assert!(code.contains("pub struct AeronImageFragmentAssembler"));
    assert!(code.contains("#[doc = \"Close the assembler.\"]\npub fn delete(&self, ) -> Result<i32, AeronCError>"));
    assert!(code.contains("pub trait AeronCloseClientCallback"));
}

#[test]
fn lib_media_driver() {
    let text = format!("{}\npub struct in_addr {{ pub s_addr: u32, }}\n", CLIENT_LIKE);
    let (ws, _, hs) = parse_bindings(&text).expect("bindings parse");
    assert_eq!(
        "AeronImageFragmentAssembler",
        wrapper(&ws, "aeron_image_fragment_assembler_t").class_name
    );
    let code = generate_all(&ws, &hs, |t| !t.contains("_t_") && t != "in_addr");
    assert!(code.contains("pub struct AeronImageFragmentAssembler"));
    assert!(!code.contains("pub struct InAddr"));
}
