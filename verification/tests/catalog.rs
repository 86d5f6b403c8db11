use pistones::catalog::{resolve, resolve_fetched};
use pistones::lang::Language;
use pistones::Error;

fn entry(name: &str, version: &str, aliases: &[&str]) -> Language {
    Language {
        language: name.to_string(),
        version: version.to_string(),
        aliases: aliases.iter().map(|alias| alias.to_string()).collect(),
        runtime: None,
    }
}

fn sample() -> Vec<Language> {
    vec![
        entry("rust", "1.75.0", &["rs"]),
        entry("python", "3.12.0", &["py", "py3", "python3"]),
        entry("typescript", "5.0.3", &["ts", "node-ts", "tsc"]),
    ]
}

#[test]
fn name_resolves_to_its_version() {
    assert_eq!(resolve("rust", &sample()).unwrap(), "1.75.0");
    assert_eq!(resolve("python", &sample()).unwrap(), "3.12.0");
    assert_eq!(resolve("typescript", &sample()).unwrap(), "5.0.3");
}

#[test]
fn alias_resolves_as_the_name_does() {
    let catalog = sample();
    for item in &catalog {
        let by_name = resolve(&item.language, &catalog).unwrap();
        assert_eq!(by_name, item.version);
        for alias in &item.aliases {
            assert_eq!(resolve(alias, &catalog).unwrap(), by_name);
        }
    }
}

#[test]
fn single_entry_catalog_resolves_alias() {
    let catalog = vec![entry("rust", "1.75.0", &["rs"])];
    assert_eq!(resolve("rs", &catalog).unwrap(), "1.75.0");
}

#[test]
fn unknown_identifier_is_not_found() {
    assert!(matches!(resolve("cobol", &sample()), Err(Error::UnknownLang)));
    assert!(matches!(resolve("", &sample()), Err(Error::UnknownLang)));
    assert!(matches!(resolve("Rust", &sample()), Err(Error::UnknownLang)));
    assert!(matches!(resolve("r", &sample()), Err(Error::UnknownLang)));
}

#[test]
fn version_is_no_identifier() {
    assert!(matches!(resolve("1.75.0", &sample()), Err(Error::UnknownLang)));
}

#[test]
fn empty_catalog_finds_nothing() {
    assert!(matches!(resolve("rust", &Vec::new()), Err(Error::UnknownLang)));
}

#[test]
fn first_entry_wins_a_shared_alias() {
    let catalog = vec![
        entry("javascript", "18.15.0", &["js", "node"]),
        entry("typescript", "5.0.3", &["ts", "node"]),
    ];
    assert_eq!(resolve("node", &catalog).unwrap(), "18.15.0");
    assert_eq!(resolve("ts", &catalog).unwrap(), "5.0.3");
}

#[test]
fn earlier_alias_wins_over_later_name() {
    let catalog = vec![entry("clang", "10.2.0", &["c"]), entry("c", "12.1.0", &[])];
    assert_eq!(resolve("c", &catalog).unwrap(), "10.2.0");
}

#[test]
fn first_of_two_versions_of_one_name_wins() {
    let catalog = vec![entry("python", "3.12.0", &["py"]), entry("python", "2.7.18", &["py2"])];
    assert_eq!(resolve("python", &catalog).unwrap(), "3.12.0");
    assert_eq!(resolve("py2", &catalog).unwrap(), "2.7.18");
}

#[test]
fn fetched_catalog_is_resolved_against() {
    assert_eq!(resolve_fetched("py3", Ok(sample())).unwrap(), "3.12.0");
    assert!(matches!(resolve_fetched("cobol", Ok(sample())), Err(Error::UnknownLang)));
}

#[test]
fn failed_fetch_fails_the_lookup() {
    let failure = Error::Request("error sending request".to_string());
    match resolve_fetched("rust", Err(failure)) {
        Err(Error::Request(diagnostic)) => assert_eq!(diagnostic, "error sending request"),
        other => panic!("unexpected: {:?}", other),
    }
}
