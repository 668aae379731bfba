use rusteron::docs::method_doc_lines;
use rusteron::generator::{Arg, ArgProcessing, CWrapper, Method};

fn arg(name: &str, ty: &str) -> Arg {
    Arg { name: name.to_string(), c_type: ty.to_string(), processing: ArgProcessing::Default }
}

fn wrapper(class_name: &str, c_type_name: &str) -> CWrapper {
    CWrapper {
        class_name: class_name.to_string(),
        c_type_name: c_type_name.to_string(),
        without_name: String::new(),
        fields: vec![],
        methods: vec![],
        docs: Vec::new(),
    }
}

fn lines(v: &[(bool, &str)]) -> Vec<(bool, String)> {
    v.iter().map(|(d, t)| (*d, t.to_string())).collect()
}

#[test]
fn method_docs_keep_documented_parameters_and_name_classes() {
    let docs = vec![
        "Add a publication.\n@param client to add the publication to.\n@param uri for the channel.\n@return 0 for success".to_string(),
        "See aeron_publication_t. @deprecated use <p>another</p>".to_string(),
    ];
    let ws = vec![wrapper("AeronPublication", "aeron_publication_t")];
    let params = vec!["uri: &str".to_string()];
    let got = method_doc_lines(&docs, &ws, Some(params.as_slice()));
    assert_eq!(
        got,
        lines(&[
            (false, "Add a publication."),
            (false, "# Parameters\n\n - `uri` for the channel."),
            (false, "\n# Return\n 0 for success"),
            (true, "See `AeronPublication`. @deprecated use \nanother\n"),
        ])
    );
}

#[test]
fn method_docs_without_parameter_list_keep_every_line() {
    let docs = vec!["@param a first\r\n@param b second\n".to_string()];
    let got = method_doc_lines(&docs, &[], None);
    assert_eq!(got, lines(&[(false, "# Parameters\n\n - `a` first"), (false, "\n - `b` second")]));
}

#[test]
fn param_pattern_takes_tabs_and_needs_a_word() {
    let docs = vec!["x @param\tfoo bar @param y".to_string(), "a @param ".to_string(), "c @param \tz".to_string()];
    let got = method_doc_lines(&docs, &[], None);
    assert_eq!(
        got,
        lines(&[(false, "# Parameters\nx \n - `foo` bar @param y"), (false, "a @param "), (false, "c \n - `z`")])
    );
}

#[test]
fn generated_method_carries_its_docs() {
    let mut m = Method {
        fn_name: "aeron_publication_offer".to_string(),
        struct_method_name: "offer".to_string(),
        return_type: arg("", "i64"),
        arguments: vec![arg("publication", "* mut aeron_publication_t"), arg("position", "i64")],
        docs: vec!["Offer.\n@param publication to offer to.\n@param position to offer at.".to_string()],
    };
    let w = wrapper("AeronPublication", "aeron_publication_t");
    let ws = vec![wrapper("AeronPublication", "aeron_publication_t")];
    assert_eq!(
        "#[inline]\n#[doc = \"Offer.\"]\n#[doc = \"# Parameters\\n\\n - `position` to offer at.\"]\npub fn offer(&self, position: i64) -> i64 { unsafe { let result = aeron_publication_offer(self.get_inner(), position.into()); result.into() } }",
        w.generate_method(&m, &ws)
    );
    m.docs = vec!["Old. @deprecated".to_string()];
    assert!(w.generate_method(&m, &ws).starts_with("#[inline]\n#[deprecated]\n#[doc = \"Old. @deprecated\"]\npub fn offer("));
}

#[test]
fn static_string_result_carries_the_safety_note() {
    let m = Method {
        fn_name: "aeron_version_text".to_string(),
        struct_method_name: "version_text".to_string(),
        return_type: arg("", Arg::C_CHAR_STR),
        arguments: vec![],
        docs: Vec::new(),
    };
    let w = wrapper("Aeron", "aeron_t");
    let text = w.generate_method(&m, &[wrapper("Aeron", "aeron_t")]);
    assert!(text.starts_with("#[inline]\n#[doc = \"SAFETY: this is static for performance reasons, so you should not store this without copying it!!\"]\npub fn version_text() -> &'static str {"));
}

#[test]
fn out_param_method_docs_return_the_out_parameter() {
    let m = Method {
        fn_name: "aeron_counter_value".to_string(),
        struct_method_name: "value".to_string(),
        return_type: arg("", Arg::C_INT_RETURN_TYPE_STR),
        arguments: vec![arg("counter", "* mut aeron_publication_t"), arg("value", "* mut i64")],
        docs: vec!["Get the value.\n@param counter to read.\n@param value out param for the value.\n@return 0 for success".to_string()],
    };
    let w = wrapper("AeronPublication", "aeron_publication_t");
    let ws = vec![wrapper("AeronPublication", "aeron_publication_t")];
    let text = w.generate_method_bindings(&m, &ws, &vec![]);
    assert!(text.starts_with(
        "#[inline]\n#[doc = \"Get the value.\"]\n#[doc = \"\\n\\n \\n# Return\\n`value` out param for the value.\"]\npub fn value(&self, ) -> Result<i64, AeronCError> {"
    ));
}
