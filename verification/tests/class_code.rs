use rusteron::generator::{Arg, ArgProcessing, CWrapper, Method};

fn arg(name: &str, ty: &str) -> Arg {
    Arg {
        name: name.to_string(),
        c_type: ty.to_string(),
        processing: ArgProcessing::Default,
    }
}

fn method(fn_name: &str, name: &str, ret: &str, args: Vec<Arg>) -> Method {
    Method {
        fn_name: fn_name.to_string(),
        struct_method_name: name.to_string(),
        return_type: arg("", ret),
        arguments: args,
        docs: Vec::new(),
    }
}

fn wrapper(class_name: &str, c_type_name: &str) -> CWrapper {
    CWrapper {
        class_name: class_name.to_string(),
        c_type_name: c_type_name.to_string(),
        without_name: String::new(),
        fields: vec![],
        methods: vec![],
        docs: Vec::new(),
    }
}

#[test]
fn constructor_pairs_init_with_close() {
    let mut w = wrapper("AeronContext", "aeron_context_t");
    w.methods = vec![
        method("aeron_context_init", "init", Arg::C_INT_RETURN_TYPE_STR, vec![arg("context", "* mut * mut aeron_context_t")]),
        method("aeron_context_close", "close", Arg::C_INT_RETURN_TYPE_STR, vec![arg("context", "* mut aeron_context_t")]),
    ];
    let ws = vec![wrapper("AeronContext", "aeron_context_t")];
    let (code, kept, kept_none) = w.generate_constructor(&ws);
    assert_eq!(1, code.len());
    assert_eq!(
        "pub fn new() -> Result<Self, AeronCError> { let resource_constructor = ManagedCResource::new(move |ctx_field| unsafe { aeron_context_init(ctx_field) }, Some(Box::new(move |ctx_field| unsafe { aeron_context_close(*ctx_field)} )), false, None, )?; Ok(Self { inner: CResource::OwnedOnHeap(std::rc::Rc::new(resource_constructor)),  }) }\n",
        code[0]
    );
    assert!(kept.is_empty());
    assert!(kept_none.is_empty());
}

#[test]
fn constructor_keeps_wrapped_arguments() {
    let mut w = wrapper("AeronPublication", "aeron_publication_t");
    w.methods = vec![
        method(
            "aeron_publication_create",
            "create",
            Arg::C_INT_RETURN_TYPE_STR,
            vec![arg("publication", "* mut * mut aeron_publication_t"), arg("client", "* mut aeron_t"), arg("stream_id", "i32")],
        ),
        method("aeron_publication_destroy", "destroy", Arg::C_INT_RETURN_TYPE_STR, vec![arg("publication", "* mut aeron_publication_t")]),
    ];
    let ws = vec![wrapper("Aeron", "aeron_t"), wrapper("AeronPublication", "aeron_publication_t")];
    let (code, kept, kept_none) = w.generate_constructor(&ws);
    assert_eq!(1, code.len());
    assert!(code[0].starts_with("pub fn new(client: &Aeron, stream_id: i32) -> Result<Self, AeronCError> { let client_copy = client.clone(); let client: * mut aeron_t = client.into(); let stream_id: i32 = stream_id.into(); "));
    assert!(code[0].contains("aeron_publication_create(ctx_field, client, stream_id)"));
    assert!(code[0].ends_with("_client: Some(client_copy), }) }\n"));
    assert_eq!(vec!["_client: Option<Aeron>,".to_string()], kept);
    assert_eq!(vec!["_client: None,".to_string()], kept_none);
}

#[test]
fn struct_without_constructor_gets_zeroed_and_field_new() {
    let mut w = wrapper("AeronHeaderValues", "aeron_header_values_t");
    w.fields = vec![arg("session_id", "i32"), arg("stream_id", "i32")];
    let (code, _, _) = w.generate_constructor(&vec![]);
    assert_eq!(1, code.len());
    assert!(code[0].starts_with("#[inline]\npub fn new(session_id: i32, stream_id: i32) -> Result<Self, AeronCError> { let r_constructor = ManagedCResource::new(move |ctx_field| { let inst = aeron_header_values_t { session_id: session_id.into(), stream_id: stream_id.into() };"));
    assert!(code[0].contains("pub fn new_zeroed_on_heap() -> Self"));
    assert!(code[0].contains("pub fn new_zeroed_on_stack() -> Self"));

    let empty = wrapper("AeronEmpty", "aeron_empty_t");
    let (code, _, _) = empty.generate_constructor(&vec![]);
    assert_eq!(1, code.len());
    assert!(code[0].starts_with("#[inline]\n/// creates zeroed struct where the underlying c struct is on the heap\n"));
}

#[test]
fn field_getters_and_debug_entries() {
    let mut w = wrapper("AeronHeaderValues", "aeron_header_values_t");
    w.fields = vec![
        arg("session_id", "i32"),
        arg("_private", "i32"),
        arg("channel", Arg::C_MUT_CHAR_STR),
        arg("next", "* mut aeron_t"),
    ];
    let ws = vec![wrapper("Aeron", "aeron_t")];
    let (getters, debug) = w.generate_fields(&ws);
    assert_eq!(3, getters.len());
    assert_eq!("#[inline]\npub fn session_id(&self) -> i32 { self.session_id.into() }", getters[0]);
    assert_eq!(
        "#[inline]\npub fn channel(&self) -> &str { if self.channel.is_null() { \"\" } else { unsafe { std::ffi::CStr::from_ptr(self.channel).to_str().unwrap() } } }",
        getters[1]
    );
    assert_eq!("#[inline]\npub fn next(&self) -> Aeron { self.next.into() }", getters[2]);
    assert_eq!(vec![".field(stringify!(session_id), &self.session_id())".to_string()], debug);
}

#[test]
fn class_code_assembles_struct_impl_and_conversions() {
    use_class_code();
}

fn use_class_code() {
    let mut w = wrapper("AeronContext", "aeron_context_t");
    w.methods = vec![
        method("aeron_context_init", "init", Arg::C_INT_RETURN_TYPE_STR, vec![arg("context", "* mut * mut aeron_context_t")]),
        method("aeron_context_close", "close", Arg::C_INT_RETURN_TYPE_STR, vec![arg("context", "* mut aeron_context_t")]),
    ];
    w.docs = vec!["The client context.".to_string()];
    let ws = vec![wrapper("AeronContext", "aeron_context_t")];
    let code = rusteron::class_code::generate_class_code(&w, &ws, &vec![], "// common\n", true, false, false);
    assert!(code.starts_with("#[doc = \"The client context.\"]\n#[derive(Clone)]\npub struct AeronContext { inner: CResource<aeron_context_t>,  }\n"));
    assert!(code.contains("impl core::fmt::Debug for AeronContext {"));
    assert!(code.contains("impl AeronContext {\npub fn new() -> Result<Self, AeronCError> {"));
    assert!(code.contains("pub fn close(&self, ) -> Result<i32, AeronCError> {"));
    assert!(code.contains("impl From<*mut aeron_context_t> for AeronContext {"));
    assert!(!code.contains("impl Drop for AeronContext"));
    assert!(!code.contains("impl Default for AeronContext"));
    assert!(code.ends_with("// common\n"));
}

#[test]
fn async_operation_gets_poll_and_client_methods() {
    let mut main = wrapper("AeronPublication", "aeron_publication_t");
    main.methods = vec![method(
        "aeron_async_add_publication_poll",
        "poll",
        Arg::C_INT_RETURN_TYPE_STR,
        vec![arg("publication", "* mut * mut aeron_publication_t"), arg("async_", "* mut aeron_async_add_publication_t")],
    )];
    let mut client = wrapper("Aeron", "aeron_t");
    client.without_name = "aeron".to_string();
    let mut op = wrapper("AeronAsyncAddPublication", "aeron_async_add_publication_t");
    op.without_name = "aeron_async_add_publication".to_string();
    op.methods = vec![method(
        "aeron_async_add_publication",
        "",
        Arg::C_INT_RETURN_TYPE_STR,
        vec![
            arg("async_", "* mut * mut aeron_async_add_publication_t"),
            arg("client", "* mut aeron_t"),
            arg("stream_id", "i32"),
        ],
    )];
    let ws = vec![client, main, op.clone_shallow()];
    let text = op.generate_async_impls(&ws);
    assert!(text.starts_with("impl AeronPublication {\n#[inline]\npub fn new(async_: &AeronAsyncAddPublication) -> Result<Self, AeronCError> { let resource = ManagedCResource::new(move |ctx_field| unsafe { aeron_async_add_publication_poll(ctx_field, async_.into()) }"));
    assert!(text.contains("impl Aeron {\n#[inline]\npub fn async_add_publication(&self, stream_id: i32) -> Result<AeronAsyncAddPublication, AeronCError> { let mut result = AeronAsyncAddPublication::new(self, stream_id);"));
    assert!(text.contains("pub fn add_publication(&self, stream_id: i32, timeout: std::time::Duration) -> Result<AeronPublication, AeronCError>"));
    assert!(text.contains("impl AeronAsyncAddPublication {\n#[inline]\npub fn new(client: &Aeron, stream_id: i32) -> Result<Self, AeronCError> {"));
    assert!(text.contains("result.inner.add_dependency(client.clone()); Ok(result) }"));
    assert!(text.contains("pub fn poll(&self) -> Result<Option<AeronPublication>, AeronCError>"));
    assert_eq!("", wrapper("Aeron", "aeron_t").generate_async_impls(&ws));
}

trait ShallowClone {
    fn clone_shallow(&self) -> Self;
}

impl ShallowClone for CWrapper {
    fn clone_shallow(&self) -> Self {
        CWrapper {
            class_name: self.class_name.clone(),
            c_type_name: self.c_type_name.clone(),
            without_name: self.without_name.clone(),
            fields: vec![],
            methods: self.methods.iter().map(|m| m.clone()).collect(),
            docs: Vec::new(),
        }
    }
}
