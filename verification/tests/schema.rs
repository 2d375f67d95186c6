use mailify::record::ErrorResponse;

#[test]
fn schema_is_published_as_server_error() {
    let (name, _) = ErrorResponse::schema();
    assert_eq!(name, "ServerError");
}

#[test]
fn schema_requires_code_and_title_only() {
    let (_, builder) = ErrorResponse::schema();
    let object = builder.build();
    assert_eq!(object.required, vec![String::from("code"), String::from("title")]);
}

#[test]
fn schema_documents_code_title_and_details_only() {
    let (_, builder) = ErrorResponse::schema();
    let object = builder.build();
    let mut names: Vec<&str> = object.properties.keys().map(|k| k.as_str()).collect();
    names.sort();
    assert_eq!(names, vec!["code", "details", "title"]);
}

#[test]
fn schema_gives_the_type_of_each_field() {
    let (_, builder) = ErrorResponse::schema();
    let value = match serde_json::to_value(builder.build()) {
        Ok(value) => value,
        Err(failure) => panic!("the schema is plain data: {failure}"),
    };
    assert_eq!(value["type"], "object");
    assert_eq!(value["properties"]["code"]["type"], "string");
    assert_eq!(value["properties"]["title"]["type"], "string");
    assert_eq!(value["properties"]["details"]["type"], "array");
    assert_eq!(value["properties"]["details"]["items"]["type"], "string");
    assert_eq!(value["required"][0], "code");
    assert_eq!(value["required"][1], "title");
    assert_eq!(value["required"].as_array().map(|a| a.len()), Some(2));
    assert_eq!(value["properties"].as_object().map(|o| o.len()), Some(3));
}
