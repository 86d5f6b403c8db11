use pistones::Error;

#[test]
fn plain_errors_describe_themselves() {
    assert_eq!(Error::UnknownLang.to_string(), "Unknown language. See the API instead.");
    assert_eq!(Error::MissingLang.to_string(), "Missing language.");
    assert_eq!(Error::MissingMain.to_string(), "Missing main / code.");
    assert_eq!(Error::InvalidLanguage.to_string(), "Invalid language.");
    assert_eq!(Error::BadRequest.to_string(), "Bad request formed.");
}

#[test]
fn service_message_is_quoted() {
    let error = Error::Unknown("language not found".to_string());
    assert_eq!(error.to_string(), "Unknown error caught: language not found.");
    assert_eq!(Error::Unknown(String::new()).to_string(), "Unknown error caught: .");
}

#[test]
fn transport_diagnostic_is_quoted() {
    let error = Error::Request("builder error".to_string());
    assert_eq!(error.to_string(), "Request error: builder error");
    assert_eq!(Error::Request(String::new()).to_string(), "Request error: ");
}
