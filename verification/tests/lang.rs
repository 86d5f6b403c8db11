use pistones::lang::{ErrorResponse, Language, Response, RunData};

fn response() -> Response {
    Response {
        language: "rust".to_string(),
        version: "1.75.0".to_string(),
        run: RunData {
            code: 101,
            output: "out\nerr\n".to_string(),
            signal: Some("SIGKILL".to_string()),
            stdout: "out\n".to_string(),
        },
    }
}

#[test]
fn response_hands_out_its_parts() {
    let response = response();
    assert_eq!(response.language(), "rust");
    assert_eq!(response.version(), "1.75.0");
    assert_eq!(response.data().code(), 101);
    assert_eq!(response.data().output(), "out\nerr\n");
    assert_eq!(response.data().stdout(), "out\n");
    assert_eq!(response.data().signal(), Some("SIGKILL"));
}

#[test]
fn run_without_signal_has_none() {
    let run = RunData { code: 0, output: String::new(), signal: None, stdout: String::new() };
    assert_eq!(run.signal(), None);
    assert_eq!(run.code(), 0);
    assert_eq!(run.output(), "");
    assert_eq!(run.stdout(), "");
}

#[test]
fn refusal_hands_out_its_message() {
    let refusal = ErrorResponse { message: "language not found".to_string() };
    assert_eq!(refusal.message(), "language not found");
}

#[test]
fn language_copy_keeps_every_field() {
    let language = Language {
        language: "python".to_string(),
        version: "3.12.0".to_string(),
        aliases: vec!["py".to_string(), "py3".to_string()],
        runtime: Some("cpython".to_string()),
    };
    let copy = language.clone();
    assert_eq!(copy.language, "python");
    assert_eq!(copy.version, "3.12.0");
    assert_eq!(copy.aliases, vec!["py".to_string(), "py3".to_string()]);
    assert_eq!(copy.runtime, Some("cpython".to_string()));
}
