use rusteron::bindings::{
    extract_function_argument, extract_return_type, find_closest_wrapper_from_method_name,
    handler_from_signature, handler_return_type, keep_handler, keep_wrapper, method_owner_of,
    replace_all_str, struct_method_name, struct_wrapper,
};
use rusteron::generator::{Arg, ArgProcessing, CWrapper, Method};
use rusteron::parser::{get_possible_wrappers, process_types, snake_to_pascal_case};

fn arg(name: &str, ty: &str) -> Arg {
    Arg {
        name: name.to_string(),
        c_type: ty.to_string(),
        processing: ArgProcessing::Default,
    }
}

fn method(name: &str, fn_name: &str) -> Method {
    Method {
        fn_name: fn_name.to_string(),
        struct_method_name: name.to_string(),
        return_type: arg("", Arg::C_INT_RETURN_TYPE_STR),
        arguments: vec![],
        docs: Vec::new(),
    }
}

#[test]
fn arg_type_predicates() {
    assert!(arg("s", Arg::C_CHAR_STR).is_c_string());
    assert!(arg("s", Arg::C_MUT_CHAR_STR).is_mut_c_string());
    assert!(arg("s", Arg::C_CHAR_STR).is_c_string_any());
    assert!(arg("b", Arg::C_BYTE_ARRAY).is_byte_array());
    assert!(arg("b", Arg::C_BYTE_MUT_ARRAY).is_mut_byte_array());
    assert!(arg("n", "usize").is_usize());
    assert!(arg("n", "i32").is_primitive());
    assert!(!arg("p", "* mut aeron_t").is_primitive());
    assert!(arg("p", "* mut aeron_t").is_mut_pointer());
    assert!(arg("p", "* mut * mut aeron_t").is_double_mut_pointer());
    assert!(arg("p", "* mut aeron_t").is_single_mut_pointer());
    assert!(arg("v", Arg::C_VOID).is_c_void());
    assert!(arg("r", Arg::C_INT_RETURN_TYPE_STR).is_c_raw_int());
    assert!(arg("p", "* const aeron_t").is_any_pointer());
}

#[test]
fn process_types_pairs_strings_with_lengths() {
    let out = process_types(vec![arg("uri", Arg::C_CHAR_STR), arg("uri_length", "usize"), arg("x", "i32")]);
    assert_eq!(3, out.len());
    assert!(matches!(out[0].processing, ArgProcessing::StringWithLength(_)));
    assert!(matches!(out[1].processing, ArgProcessing::StringWithLength(_)));
    assert_eq!(ArgProcessing::Default, out[2].processing);
}

#[test]
fn possible_wrappers_longest_prefix_first() {
    assert_eq!(vec!["aeron_image_t".to_string(), "aeron_t".to_string()], get_possible_wrappers("aeron_image_poll"));
}

#[test]
fn pascal_case_of_snake_names() {
    assert_eq!("AeronImage", snake_to_pascal_case("aeron_image_t"));
    assert_eq!("AeronPublication", snake_to_pascal_case("aeron_publication"));
}

#[test]
fn find_methods_by_name() {
    let w = CWrapper {
        class_name: "AeronImage".into(),
        c_type_name: "aeron_image_t".into(),
        without_name: "image".into(),
        fields: vec![],
        methods: vec![method("poll", "aeron_image_poll"), method("close", "aeron_image_close"), method("poll", "aeron_image_poll2")],
        docs: Vec::new(),
    };
    assert_eq!(2, w.find_methods("poll").len());
    assert!(w.find_unique_method("poll").is_none());
    assert_eq!("aeron_image_close", w.find_unique_method("close").unwrap().fn_name);
    assert!(w.find_unique_method("missing").is_none());
}

#[test]
fn binding_item_helpers() {
    assert_eq!("aeron_t aeron_image_t", replace_all_str("aeron_stct aeron_image_stct", "_stct", "_t"));
    assert_eq!("poll", struct_method_name("aeron_image_poll", "aeron_image_t"));
    assert_eq!("()", extract_return_type(None));
    assert_eq!("i32", extract_return_type(Some("i32")));
    let a = extract_function_argument(" image : * mut aeron_image_t ");
    assert_eq!("image", a.name);
    assert_eq!("* mut aeron_image_t", a.c_type);
    let names = vec!["aeron_t".to_string(), "aeron_image_t".to_string()];
    assert_eq!(Some("aeron_image_t".to_string()), find_closest_wrapper_from_method_name(&names, "aeron_image_poll"));
    assert_eq!(None, find_closest_wrapper_from_method_name(&names, "other_thing"));
    let args = vec![arg("out", "* mut i64"), arg("image", "* mut aeron_image_t")];
    assert_eq!(Some("aeron_image_t".to_string()), method_owner_of(&args, "aeron_x_y", &names));
    let args = vec![arg("n", "i32")];
    assert_eq!(Some("aeron_t".to_string()), method_owner_of(&args, "aeron_version", &names));
    assert_eq!("()", handler_return_type(""));
    assert_eq!("i32", handler_return_type(" -> i32 "));
    let h = handler_from_signature(
        "aeron_on_x_t".to_string(),
        vec![arg("clientd", Arg::C_VOID), arg("n", "i32")],
        "",
        Vec::new(),
    )
    .unwrap();
    assert_eq!("()", h.return_type.c_type);
    assert!(handler_from_signature("t".to_string(), vec![arg("n", "i32")], "", Vec::new()).is_none());
    let w = struct_wrapper("aeron_image_stct", vec![arg("x", "i32")], Vec::new());
    assert_eq!("aeron_image_t", w.c_type_name);
    assert_eq!("AeronImage", w.class_name);
    assert_eq!("aeron_image", w.without_name);
    assert!(keep_wrapper("aeron_image_t"));
    assert!(!keep_wrapper("aeron_thread_t"));
    assert!(keep_handler("aeron_on_x_t"));
    assert!(!keep_handler("aeron_udp_channel_x_t"));
}

#[test]
fn close_method_of_constructors() {
    let w = CWrapper {
        class_name: "AeronCounter".into(),
        c_type_name: "aeron_counter_t".into(),
        without_name: "aeron_counter".into(),
        fields: vec![],
        methods: vec![
            method("close", "aeron_counter_close"),
            method("add_counter", "aeron_add_counter"),
            method("remove_counter", "aeron_remove_counter"),
            method("create", "aeron_counter_create"),
            method("delete", "aeron_counter_delete"),
        ],
        docs: Vec::new(),
    };
    let init = method("init", "aeron_counter_init");
    assert_eq!("aeron_counter_close", w.find_close_method(&init).unwrap().fn_name);
    let add = method("add_counter", "aeron_add_counter");
    assert_eq!("aeron_remove_counter", w.find_close_method(&add).unwrap().fn_name);
    let create = method("create", "aeron_counter_create");
    assert_eq!("aeron_counter_delete", w.find_close_method(&create).unwrap().fn_name);
    let poll = method("poll", "aeron_counter_poll");
    assert!(w.find_close_method(&poll).is_none());
}

#[test]
fn default_constructor_needs_public_fields_and_no_initialiser() {
    let mut w = CWrapper {
        class_name: "AeronX".into(),
        c_type_name: "aeron_x_t".into(),
        without_name: "aeron_x".into(),
        fields: vec![arg("a", "i32")],
        methods: vec![],
        docs: Vec::new(),
    };
    assert!(w.has_default_method());
    w.fields.push(arg("_private", "i32"));
    assert!(!w.has_default_method());
    w.fields.pop();
    let mut m = method("init", "aeron_x_init");
    m.arguments = vec![arg("out", "* mut * mut aeron_x_t")];
    w.methods.push(m);
    assert!(!w.has_default_method());
    w.methods.clear();
    w.fields.clear();
    assert!(!w.has_default_method());
}
