use http_request_derive::{
    attribute_name, expand_format_string, extract_fields, plan_request, DeriveData, FieldIdentifier,
    FieldReceiver, FieldType, FieldsStyle, FormatArgs, HttpMethod, MacroError, RequestParameters,
};

fn field(ident: Option<&str>, ty: FieldType, body: bool, query: bool, header: bool) -> FieldReceiver {
    FieldReceiver { ident: ident.map(|s| s.to_string()), ty, body, query, header }
}

fn plain(ident: &str) -> FieldReceiver {
    field(Some(ident), FieldType::Other, false, false, false)
}

fn header_map_type() -> FieldType {
    FieldType::Path(vec!["http".to_string(), "HeaderMap".to_string()])
}

fn message(e: MacroError) -> String {
    match e {
        MacroError::Message { message } => message,
        other => panic!("unexpected {:?}", other),
    }
}

#[test]
fn named_arguments_are_the_fields_in_the_path() {
    let fields = vec![plain("query"), plain("id"), plain("name")];
    match expand_format_string(attribute_name(), "/books/{id}/abstract", FieldsStyle::Struct, &fields) {
        Ok(FormatArgs::Named(names)) => assert_eq!(names, vec!["id".to_string()]),
        other => panic!("unexpected {:?}", other),
    }
    match expand_format_string(attribute_name(), "/{name}/{id}", FieldsStyle::Struct, &fields) {
        Ok(FormatArgs::Named(names)) => assert_eq!(names, vec!["id".to_string(), "name".to_string()]),
        other => panic!("unexpected {:?}", other),
    }
}

#[test]
fn positional_arguments_are_counted() {
    let fields = vec![field(None, FieldType::Other, false, false, false)];
    assert!(matches!(
        expand_format_string(attribute_name(), "/a/{}", FieldsStyle::Tuple, &fields),
        Ok(FormatArgs::Positional(1))
    ));
    assert!(matches!(
        expand_format_string(attribute_name(), "/{{x}}/{}", FieldsStyle::Tuple, &fields),
        Ok(FormatArgs::Positional(1))
    ));
    let err = expand_format_string(attribute_name(), "/{}/{}", FieldsStyle::Tuple, &fields).unwrap_err();
    assert_eq!(message(err), "Too many arguments in #[http_request] format string.");
    assert!(matches!(expand_format_string(attribute_name(), "/x", FieldsStyle::Unit, &Vec::new()), Ok(FormatArgs::Plain)));
}

#[test]
fn fields_with_roles_are_found() {
    let fields = vec![
        field(Some("query"), FieldType::Other, false, true, false),
        field(Some("body"), FieldType::Other, true, false, false),
        plain("id"),
    ];
    let found = extract_fields(&fields).expect("fields");
    let body = found.body.expect("body");
    assert_eq!(body.identifier, FieldIdentifier::Named("body".to_string()));
    assert_eq!(body.position, 1);
    assert_eq!(found.query.expect("query").position, 0);
    assert!(found.header.is_none());

    let tuple = vec![
        field(None, FieldType::Other, false, true, false),
        field(None, header_map_type(), false, false, true),
    ];
    let found = extract_fields(&tuple).expect("fields");
    assert_eq!(found.header.expect("header").identifier, FieldIdentifier::Index(1));
}

#[test]
fn a_role_on_two_fields_is_refused() {
    let fields = vec![
        field(Some("a"), FieldType::Other, true, false, false),
        field(Some("b"), FieldType::Other, true, true, false),
    ];
    let err = extract_fields(&fields).unwrap_err();
    assert_eq!(message(err), "#[http_request(body)] found on multiple struct fields");
    let fields = vec![
        field(Some("a"), FieldType::Other, false, true, false),
        field(Some("b"), FieldType::Other, false, true, false),
    ];
    assert_eq!(message(extract_fields(&fields).unwrap_err()), "#[http_request(query)] found on multiple struct fields");
}

fn params(data: DeriveData) -> RequestParameters {
    RequestParameters {
        method: HttpMethod::Get,
        response: "MyResponse".to_string(),
        path: "/hello/world".to_string(),
        data,
    }
}

#[test]
fn plans_are_made_for_structs() {
    let fields = vec![
        field(None, FieldType::Other, false, true, false),
        field(None, FieldType::Other, true, false, false),
        field(None, header_map_type(), false, false, true),
    ];
    let plan = plan_request(params(DeriveData::Struct { style: FieldsStyle::Tuple, fields })).expect("plan");
    assert_eq!(plan.method, HttpMethod::Get);
    assert_eq!(plan.response, "MyResponse");
    assert!(matches!(plan.path_args, FormatArgs::Positional(0)));
    assert_eq!(plan.fields.header.expect("header").position, 2);
    assert_eq!(plan.fields.body.expect("body").position, 1);
}

#[test]
fn plans_refuse_enums_and_bad_header_fields() {
    assert_eq!(
        message(plan_request(params(DeriveData::Enum)).unwrap_err()),
        "#[http_request(...)] can only be used with structs"
    );
    let other = vec![field(Some("h"), FieldType::Other, false, false, true)];
    assert_eq!(
        message(plan_request(params(DeriveData::Struct { style: FieldsStyle::Struct, fields: other })).unwrap_err()),
        "Attribute #[http_request(header)] must be applied to valid type"
    );
    let string = vec![field(Some("h"), FieldType::Path(vec!["String".to_string()]), false, false, true)];
    assert_eq!(
        message(plan_request(params(DeriveData::Struct { style: FieldsStyle::Struct, fields: string })).unwrap_err()),
        "Attribute #[http_request(header)] must be applied to field of type http::HeaderMap"
    );
    let mut too_many = params(DeriveData::Struct { style: FieldsStyle::Tuple, fields: Vec::new() });
    too_many.path = "/{}".to_string();
    assert_eq!(
        message(plan_request(too_many).unwrap_err()),
        "Too many arguments in #[http_request] format string."
    );
}
