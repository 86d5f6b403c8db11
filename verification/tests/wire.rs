use pistones::client::{Data, FileData};
use serde_json::Value;

fn written(data: &Data) -> Value {
    let mut files = Vec::new();
    for file in data.files() {
        let mut object = serde_json::Map::new();
        let name = match file.name() {
            Some(name) => Value::String(name.to_string()),
            None => Value::Null,
        };
        object.insert("name".to_string(), name);
        object.insert("content".to_string(), Value::String(file.content().to_string()));
        files.push(Value::Object(object));
    }
    let mut object = serde_json::Map::new();
    object.insert("language".to_string(), Value::String(data.language().to_string()));
    object.insert("version".to_string(), Value::String(data.version().to_string()));
    object.insert("files".to_string(), Value::Array(files));
    Value::Object(object)
}

fn read_files(value: &Value) -> Vec<FileData> {
    let mut files = Vec::new();
    for file in value["files"].as_array().expect("a list of files") {
        let content = file["content"].as_str().expect("a content");
        files.push(match file["name"].as_str() {
            Some(name) => FileData::from((name, content)),
            None => FileData::from(content),
        });
    }
    files
}

#[test]
fn named_file_survives_the_wire() {
    let data = Data::new("rust", "1.75.0", vec![FileData::from(("main", "X"))]);
    let text = serde_json::to_string(&written(&data)).unwrap();
    let back: Value = serde_json::from_str(&text).unwrap();
    let files = read_files(&back);
    assert_eq!(files.len(), 1);
    assert_eq!(files[0].name(), Some("main"));
    assert_eq!(files[0].content(), "X");
    assert_eq!(back["language"], Value::String("rust".to_string()));
    assert_eq!(back["version"], Value::String("1.75.0".to_string()));
}

#[test]
fn empty_file_list_survives_the_wire() {
    let data = Data::new("rust", "1.75.0", Vec::new());
    let text = serde_json::to_string(&written(&data)).unwrap();
    assert_eq!(text, "{\"files\":[],\"language\":\"rust\",\"version\":\"1.75.0\"}");
    let back: Value = serde_json::from_str(&text).unwrap();
    assert!(read_files(&back).is_empty());
}
