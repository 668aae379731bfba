use rusteron::bindings::CHandler;
use rusteron::generator::{warning_code, Arg, ArgProcessing, CWrapper, Method, ReturnType};

fn arg(name: &str, ty: &str) -> Arg {
    Arg {
        name: name.to_string(),
        c_type: ty.to_string(),
        processing: ArgProcessing::Default,
    }
}

fn wrapper(class_name: &str, c_type_name: &str) -> CWrapper {
    CWrapper {
        class_name: class_name.to_string(),
        c_type_name: c_type_name.to_string(),
        without_name: String::new(),
        fields: vec![],
        methods: vec![],
        docs: Vec::new(),
    }
}

fn wrappers() -> Vec<CWrapper> {
    vec![wrapper("Aeron", "aeron_t"), wrapper("AeronPublication", "aeron_publication_t")]
}

fn rt(a: Arg) -> ReturnType {
    ReturnType::new(a, wrappers())
}

#[test]
fn new_return_type_maps_wrapped_pointers_to_classes() {
    let r = rt(arg("publication", "* mut aeron_publication_t"));
    assert_eq!("AeronPublication", r.get_new_return_type(true, false));
    assert_eq!("&AeronPublication", r.get_new_return_type(false, true));
    assert_eq!("Aeron", rt(arg("a", "aeron_t")).get_new_return_type(false, true));
}

#[test]
fn new_return_type_converts_status_codes_and_strings() {
    let code = rt(arg("", Arg::C_INT_RETURN_TYPE_STR));
    assert_eq!("Result<i32, AeronCError>", code.get_new_return_type(true, false));
    assert_eq!(Arg::C_INT_RETURN_TYPE_STR, code.get_new_return_type(false, false));
    let s = rt(arg("uri", Arg::C_CHAR_STR));
    assert_eq!("&str", s.get_new_return_type(true, false));
    assert_eq!("&std::ffi::CStr", s.get_new_return_type(false, true));
    assert_eq!("&mut i64", rt(arg("value", "* mut i64")).get_new_return_type(false, true));
    assert_eq!("u64", rt(arg("value", "u64")).get_new_return_type(false, true));
}

#[test]
fn new_return_type_of_grouped_arguments() {
    let handler = Arg {
        name: "handler".to_string(),
        c_type: "aeron_on_new_publication_t".to_string(),
        processing: ArgProcessing::Handler(vec![
            arg("handler", "aeron_on_new_publication_t"),
            arg("clientd", Arg::C_VOID),
        ]),
    };
    assert_eq!(
        "Option<&Handler<AeronNewPublicationHandlerImpl>>",
        rt(handler).get_new_return_type(false, true)
    );
    let clientd = Arg {
        name: "clientd".to_string(),
        c_type: Arg::C_VOID.to_string(),
        processing: ArgProcessing::Handler(vec![]),
    };
    assert_eq!("", rt(clientd).get_new_return_type(false, true));
    let bytes = Arg {
        name: "buffer".to_string(),
        c_type: Arg::C_BYTE_ARRAY.to_string(),
        processing: ArgProcessing::ByteArrayWithLength(vec![]),
    };
    assert_eq!("&[u8]", rt(bytes).get_new_return_type(false, true));
    let length = Arg {
        name: "length".to_string(),
        c_type: "usize".to_string(),
        processing: ArgProcessing::StringWithLength(vec![]),
    };
    assert_eq!("", rt(length).get_new_return_type(false, true));
}

#[test]
fn rs_to_c_conversions() {
    assert_eq!("uri.as_ptr()", rt(arg("uri", Arg::C_CHAR_STR)).handle_rs_to_c_return("uri", false));
    assert_eq!("uri: uri.as_ptr()", rt(arg("uri", Arg::C_CHAR_STR)).handle_rs_to_c_return("uri", true));
    assert_eq!("value as *mut _", rt(arg("value", "* mut i64")).handle_rs_to_c_return("value", false));
    assert_eq!("n.into()", rt(arg("n", "i32")).handle_rs_to_c_return("n", false));
    let length = Arg {
        name: "length".to_string(),
        c_type: "usize".to_string(),
        processing: ArgProcessing::ByteArrayWithLength(vec![arg("buffer", Arg::C_BYTE_ARRAY), arg("length", "usize")]),
    };
    assert_eq!("buffer.as_ptr() as *mut _, buffer.len()", rt(length).handle_rs_to_c_return("length", false));
    let handler = Arg {
        name: "handler".to_string(),
        c_type: "aeron_on_new_publication_t".to_string(),
        processing: ArgProcessing::Handler(vec![
            arg("handler", "aeron_on_new_publication_t"),
            arg("clientd", Arg::C_VOID),
        ]),
    };
    assert_eq!(
        "handler: { let callback: aeron_on_new_publication_t = if handler.is_none() { None } else { Some(aeron_on_new_publication_t_callback::<AeronNewPublicationHandlerImpl>) }; callback }, clientd: handler.map(|m| m.as_raw()).unwrap_or_else(|| std::ptr::null_mut())",
        rt(handler).handle_rs_to_c_return("handler", true)
    );
}

#[test]
fn c_to_rs_conversions() {
    assert_eq!(
        "if result < 0 { return Err(AeronCError::from_code(result)); } else { return Ok(result) }",
        rt(arg("", Arg::C_INT_RETURN_TYPE_STR)).handle_c_to_rs_return("result", true, false)
    );
    assert_eq!("result.into()", rt(arg("", Arg::C_INT_RETURN_TYPE_STR)).handle_c_to_rs_return("result", false, false));
    assert_eq!("unsafe { &mut *result }", rt(arg("", "* mut i64")).handle_c_to_rs_return("result", true, false));
    let bytes = Arg {
        name: "buffer".to_string(),
        c_type: Arg::C_BYTE_ARRAY.to_string(),
        processing: ArgProcessing::ByteArrayWithLength(vec![arg("buffer", Arg::C_BYTE_ARRAY), arg("length", "usize")]),
    };
    assert_eq!(
        "if self.buffer.is_null() { &[] as &[_] } else { std::slice::from_raw_parts(self.buffer, self.length) }",
        rt(bytes).handle_c_to_rs_return("result", true, true)
    );
}

#[test]
fn handler_generics() {
    let handler = Arg {
        name: "handler".to_string(),
        c_type: "aeron_on_new_publication_t".to_string(),
        processing: ArgProcessing::Handler(vec![
            arg("handler", "aeron_on_new_publication_t"),
            arg("clientd", Arg::C_VOID),
        ]),
    };
    let r = rt(handler);
    assert_eq!(
        Some("AeronNewPublicationHandlerImpl: AeronNewPublicationCallback".to_string()),
        r.method_generics_for_where()
    );
    assert_eq!(Some("AeronNewPublicationHandlerImpl".to_string()), r.method_generics_for_method());
    assert_eq!(None, rt(arg("n", "i32")).method_generics_for_where());
}

#[test]
fn plain_method_binding() {
    let m = Method {
        fn_name: "aeron_publication_offer".to_string(),
        struct_method_name: "offer".to_string(),
        return_type: arg("", "i64"),
        arguments: vec![arg("publication", "* mut aeron_publication_t"), arg("position", "i64")],
        docs: Vec::new(),
    };
    let w = wrapper("AeronPublication", "aeron_publication_t");
    assert_eq!(
        "#[inline]\npub fn offer(&self, position: i64) -> i64 { unsafe { let result = aeron_publication_offer(self.get_inner(), position.into()); result.into() } }",
        w.generate_method(&m, &wrappers())
    );
    let close = Method {
        fn_name: "aeron_close".to_string(),
        struct_method_name: "close".to_string(),
        return_type: arg("", Arg::C_INT_RETURN_TYPE_STR),
        arguments: vec![arg("client", "* mut aeron_t")],
        docs: Vec::new(),
    };
    assert_eq!(
        "#[inline]\npub fn close(&self, ) -> Result<i32, AeronCError> { if let Some(inner) = self.inner.as_owned() { inner.close_already_called.set(true); } unsafe { let result = aeron_close(self.get_inner()); if result < 0 { return Err(AeronCError::from_code(result)); } else { return Ok(result) } } }",
        wrapper("Aeron", "aeron_t").generate_method(&close, &wrappers())
    );
}

#[test]
fn out_param_method_returns_the_value() {
    let m = Method {
        fn_name: "aeron_counter_value".to_string(),
        struct_method_name: "value".to_string(),
        return_type: arg("", Arg::C_INT_RETURN_TYPE_STR),
        arguments: vec![arg("counter", "* mut aeron_publication_t"), arg("value", "* mut i64")],
        docs: Vec::new(),
    };
    let w = wrapper("AeronPublication", "aeron_publication_t");
    assert_eq!(
        "#[inline]\npub fn value(&self, ) -> Result<i64, AeronCError> { unsafe { let mut mut_result: i64 = Default::default(); let err_code = aeron_counter_value(self.get_inner(), &mut mut_result); if err_code < 0 { return Err(AeronCError::from_code(err_code)); } else { return Ok(mut_result); } } }",
        w.generate_method_bindings(&m, &wrappers(), &vec![])
    );
}

#[test]
fn getter_added_for_values_method() {
    let m = Method {
        fn_name: "aeron_publication_values".to_string(),
        struct_method_name: "values".to_string(),
        return_type: arg("", "i64"),
        arguments: vec![arg("publication", "* mut aeron_publication_t"), arg("out", "* mut aeron_t")],
        docs: Vec::new(),
    };
    let w = wrapper("AeronPublication", "aeron_publication_t");
    let text = w.generate_method_bindings(&m, &wrappers(), &vec![]);
    assert!(text.ends_with("\n#[inline]\npub fn get_values(&self, ) -> Result<Aeron, AeronCError> { let result = Aeron::new_zeroed_on_stack(); self.values(&result)?; Ok(result) }"));
    assert!(text.starts_with("#[inline]\npub fn values(&self, out: &Aeron) -> i64 {"));
}

#[test]
fn bind_methods_skips_constructors() {
    let mut w = wrapper("Aeron", "aeron_t");
    w.methods = vec![
        Method {
            fn_name: "aeron_init".to_string(),
            struct_method_name: "init".to_string(),
            return_type: arg("", Arg::C_INT_RETURN_TYPE_STR),
            arguments: vec![arg("client", "* mut * mut aeron_t")],
            docs: Vec::new(),
        },
        Method {
            fn_name: "aeron_is_closed".to_string(),
            struct_method_name: "is_closed".to_string(),
            return_type: arg("", "bool"),
            arguments: vec![arg("client", "* mut aeron_t")],
            docs: Vec::new(),
        },
    ];
    let out = w.bind_methods(&wrappers(), &vec![]);
    assert_eq!(1, out.len());
    assert!(out[0].starts_with("#[inline]\npub fn is_closed(&self, ) -> bool {"));
}

#[test]
fn drop_impl_for_single_close_without_init() {
    let mut w = wrapper("AeronPublication", "aeron_publication_t");
    w.methods = vec![Method {
        fn_name: "aeron_publication_close".to_string(),
        struct_method_name: "close".to_string(),
        return_type: arg("", Arg::C_INT_RETURN_TYPE_STR),
        arguments: vec![arg("publication", "* mut aeron_publication_t"), arg("handler", "aeron_notification_t")],
        docs: Vec::new(),
    }];
    let text = w.drop_impl_code();
    assert!(text.starts_with("impl Drop for AeronPublication {"));
    assert!(text.contains("let result = self.close_with_no_args();"));
    w.methods.push(Method {
        fn_name: "aeron_publication_init".to_string(),
        struct_method_name: "init".to_string(),
        return_type: arg("", Arg::C_INT_RETURN_TYPE_STR),
        arguments: vec![],
        docs: Vec::new(),
    });
    assert_eq!("", w.drop_impl_code());
    assert_eq!("", wrapper("Aeron", "aeron_t").drop_impl_code());
}

#[test]
fn warning_code_follows_flags() {
    assert_eq!("", warning_code(false, true, true));
    assert!(warning_code(true, true, false).starts_with("#![allow(non_upper_case_globals)]\n"));
    assert_eq!(
        "type aeron_client_registering_resource_t = aeron_client_registering_resource_stct;\n",
        warning_code(true, false, true)
    );
}

#[test]
fn once_variant_takes_the_closure() {
    let handler_arg = Arg {
        name: "handler".to_string(),
        c_type: "aeron_on_new_publication_t".to_string(),
        processing: ArgProcessing::Handler(vec![
            arg("handler", "aeron_on_new_publication_t"),
            arg("clientd", Arg::C_VOID),
        ]),
    };
    let clientd_arg = Arg {
        name: "clientd".to_string(),
        c_type: Arg::C_VOID.to_string(),
        processing: ArgProcessing::Handler(vec![
            arg("handler", "aeron_on_new_publication_t"),
            arg("clientd", Arg::C_VOID),
        ]),
    };
    let m = Method {
        fn_name: "aeron_poll_events".to_string(),
        struct_method_name: "poll_events".to_string(),
        return_type: arg("", Arg::C_INT_RETURN_TYPE_STR),
        arguments: vec![arg("client", "* mut aeron_t"), handler_arg, clientd_arg],
        docs: Vec::new(),
    };
    let h = CHandler {
        c_type_name: "aeron_on_new_publication_t".to_string(),
        args: vec![arg("clientd", Arg::C_VOID), arg("stream_id", "i32")],
        return_type: arg("", "()"),
        docs: Vec::new(),
    };
    let text = wrapper("Aeron", "aeron_t").generate_method_bindings(&m, &wrappers(), &vec![h]);
    assert!(text.contains("pub fn poll_events<AeronNewPublicationHandlerImpl: AeronNewPublicationCallback>(&self, handler: Option<&Handler<AeronNewPublicationHandlerImpl>>) -> Result<i32, AeronCError>"));
    assert!(text.contains("pub fn poll_events_once<AeronNewPublicationHandlerImpl: FnMut(i32) -> ()>(&self, mut handler: AeronNewPublicationHandlerImpl) -> Result<i32, AeronCError>"));
    assert!(text.contains("aeron_poll_events(self.get_inner(), Some(aeron_on_new_publication_t_callback_for_once_closure::<AeronNewPublicationHandlerImpl>), &mut handler as *mut _ as *mut std::os::raw::c_void)"));
}
