use todo_list::codec::{decode, decode_entry, encode, encode_entry, DecodeError};
use todo_list::store::{load_todos, parse_todos, save_todos, FileRead, LoadError, SaveError};
use todo_list::todo::Todo;

fn item(id: u32, text: &str, completed: bool) -> Todo {
    Todo { id, task: text.to_string(), completed }
}

fn two() -> Vec<Todo> {
    vec![item(1, "buy milk", false), item(2, "say \"hi\"\n", true)]
}

#[test]
fn empty_collection_is_written_as_brackets() {
    assert_eq!(save_todos(&Vec::new()), Ok("[]".to_string()));
}

#[test]
fn collection_is_written_pretty_with_members_in_order() {
    let text = save_todos(&vec![item(1, "buy milk", false)]).unwrap();
    assert_eq!(
        text,
        "[\n  {\n    \"id\": 1,\n    \"task\": \"buy milk\",\n    \"completed\": false\n  }\n]"
    );
}

#[test]
fn two_tasks_are_written_with_escapes() {
    let text = save_todos(&two()).unwrap();
    assert_eq!(
        text,
        "[\n  {\n    \"id\": 1,\n    \"task\": \"buy milk\",\n    \"completed\": false\n  },\n  {\n    \"id\": 2,\n    \"task\": \"say \\\"hi\\\"\\n\",\n    \"completed\": true\n  }\n]"
    );
}

#[test]
fn saved_text_loads_back_equal() {
    let collections = vec![
        Vec::new(),
        vec![item(1, "buy milk", false)],
        two(),
        vec![item(u32::MAX, "", true), item(0, "ünï¢ødé ✅ \\ / \t", false), item(7, "x", false)],
        vec![item(5, "a", false), item(5, "b", true)],
    ];
    for todos in collections {
        let text = save_todos(&todos).unwrap();
        assert_eq!(parse_todos(&text), Ok(todos.clone()));
        assert_eq!(load_todos(FileRead::Contents(text)), Ok(todos));
    }
}

#[test]
fn value_decodes_back_to_what_was_encoded() {
    let todos = two();
    assert_eq!(decode(&encode(&todos)), Ok(todos));
    let one = item(9, "nine", true);
    assert_eq!(decode_entry(&encode_entry(&one)), Some(one));
}

#[test]
fn encoded_value_holds_the_three_members() {
    let value = encode_entry(&item(3, "walk", true));
    assert_eq!(value.get("id").and_then(|v| v.as_u64()), Some(3));
    assert_eq!(value.get("task").and_then(|v| v.as_str()), Some("walk"));
    assert_eq!(value.get("completed").and_then(|v| v.as_bool()), Some(true));
    assert_eq!(value.as_object().map(|m| m.len()), Some(3));
    let list = encode(&two());
    assert_eq!(list.as_array().map(|a| a.len()), Some(2));
}

#[test]
fn missing_file_is_the_empty_collection() {
    assert_eq!(load_todos(FileRead::Missing), Ok(Vec::new()));
}

#[test]
fn empty_file_is_the_empty_collection() {
    assert_eq!(load_todos(FileRead::Contents(String::new())), Ok(Vec::new()));
    assert_eq!(parse_todos(""), Ok(Vec::new()));
}

#[test]
fn empty_array_is_the_empty_collection() {
    assert_eq!(parse_todos("[]"), Ok(Vec::new()));
    assert_eq!(parse_todos(" [ ]\n"), Ok(Vec::new()));
}

#[test]
fn compact_text_is_read_too() {
    let text = "[{\"id\":1,\"task\":\"buy milk\",\"completed\":false},{\"completed\":true,\"task\":\"b\",\"id\":4}]";
    assert_eq!(parse_todos(text), Ok(vec![item(1, "buy milk", false), item(4, "b", true)]));
}

#[test]
fn unknown_members_are_passed_over() {
    let text = "[{\"id\":1,\"task\":\"a\",\"completed\":false,\"due\":\"today\",\"tags\":[1,2]}]";
    assert_eq!(parse_todos(text), Ok(vec![item(1, "a", false)]));
}

#[test]
fn failed_open_and_read_are_told_apart() {
    let open = load_todos(FileRead::OpenFailed("permission denied".to_string()));
    assert_eq!(open, Err(LoadError::Open("permission denied".to_string())));
    let read = load_todos(FileRead::ReadFailed("stream did not contain valid UTF-8".to_string()));
    assert_eq!(read, Err(LoadError::Read("stream did not contain valid UTF-8".to_string())));
}

#[test]
fn text_that_is_not_json_is_a_syntax_error() {
    assert_eq!(
        parse_todos("x"),
        Err(LoadError::Syntax("expected value at line 1 column 1".to_string()))
    );
    assert_eq!(
        parse_todos("["),
        Err(LoadError::Syntax("EOF while parsing a list at line 1 column 1".to_string()))
    );
    assert!(matches!(parse_todos("   "), Err(LoadError::Syntax(_))));
    assert!(matches!(parse_todos("[] []"), Err(LoadError::Syntax(_))));
    assert!(matches!(
        load_todos(FileRead::Contents("{\"id\":".to_string())),
        Err(LoadError::Syntax(_))
    ));
}

#[test]
fn json_that_is_no_array_is_not_a_list() {
    for text in ["{}", "null", "1", "\"a\"", "true", "{\"id\":1,\"task\":\"a\",\"completed\":false}"] {
        assert_eq!(parse_todos(text), Err(LoadError::Shape(DecodeError::NotAList)));
    }
}

#[test]
fn first_bad_entry_is_named_by_its_index() {
    let good = "{\"id\":1,\"task\":\"a\",\"completed\":false}";
    let bad_entries = [
        "{\"task\":\"a\",\"completed\":false}",
        "{\"id\":1,\"completed\":false}",
        "{\"id\":1,\"task\":\"a\"}",
        "{\"id\":\"1\",\"task\":\"a\",\"completed\":false}",
        "{\"id\":-1,\"task\":\"a\",\"completed\":false}",
        "{\"id\":1.5,\"task\":\"a\",\"completed\":false}",
        "{\"id\":4294967296,\"task\":\"a\",\"completed\":false}",
        "{\"id\":1,\"task\":7,\"completed\":false}",
        "{\"id\":1,\"task\":\"a\",\"completed\":0}",
        "{\"id\":null,\"task\":\"a\",\"completed\":false}",
        "[1,\"a\",false]",
        "null",
        "3",
    ];
    for bad in bad_entries {
        let text = format!("[{},{},{},{}]", good, good, bad, bad);
        assert_eq!(
            parse_todos(&text),
            Err(LoadError::Shape(DecodeError::BadEntry { index: 2 }))
        );
        let text = format!("[{}]", bad);
        assert_eq!(
            parse_todos(&text),
            Err(LoadError::Shape(DecodeError::BadEntry { index: 0 }))
        );
    }
}

#[test]
fn largest_id_that_fits_is_read() {
    let text = "[{\"id\":4294967295,\"task\":\"a\",\"completed\":true},{\"id\":0,\"task\":\"\",\"completed\":false}]";
    assert_eq!(parse_todos(text), Ok(vec![item(4294967295, "a", true), item(0, "", false)]));
}

#[test]
fn repeated_ids_in_a_file_are_read_as_they_stand() {
    let text = "[{\"id\":1,\"task\":\"a\",\"completed\":false},{\"id\":1,\"task\":\"b\",\"completed\":false}]";
    assert_eq!(parse_todos(text), Ok(vec![item(1, "a", false), item(1, "b", false)]));
}

#[test]
fn load_errors_name_the_step_and_the_cause() {
    let e = LoadError::Open("denied".to_string());
    assert_eq!(e.context(), "Failed to open todo file");
    assert_eq!(e.detail(), "denied");
    let e = LoadError::Read("bad".to_string());
    assert_eq!(e.context(), "Failed to read from todo file");
    assert_eq!(e.detail(), "bad");
    let e = LoadError::Syntax("expected value at line 1 column 1".to_string());
    assert_eq!(e.context(), "Failed to parse todo file JSON");
    assert_eq!(e.detail(), "expected value at line 1 column 1");
    let e = LoadError::Shape(DecodeError::NotAList);
    assert_eq!(e.context(), "Failed to parse todo file JSON");
    assert_eq!(e.detail(), "expected a list of to-dos");
    let e = LoadError::Shape(DecodeError::BadEntry { index: 12 });
    assert_eq!(e.context(), "Failed to parse todo file JSON");
    assert_eq!(e.detail(), "entry 12 is not a to-do");
    assert_eq!(DecodeError::BadEntry { index: 0 }.describe(), "entry 0 is not a to-do");
}

#[test]
fn save_errors_name_the_step_and_the_cause() {
    let e = SaveError::Open("denied".to_string());
    assert_eq!(e.context(), "Failed to open or create todo file for writing");
    assert_eq!(e.detail(), "denied");
    let e = SaveError::Serialize("key must be a string".to_string());
    assert_eq!(e.context(), "Failed to serialize todos to JSON");
    assert_eq!(e.detail(), "key must be a string");
    let e = SaveError::Write("disk full".to_string());
    assert_eq!(e.context(), "Failed to write to todo file");
    assert_eq!(e.detail(), "disk full");
}

#[test]
fn decode_of_hand_made_values() {
    let value = serde_json::Value::from(vec![serde_json::Value::from(1u64)]);
    assert_eq!(decode(&value), Err(DecodeError::BadEntry { index: 0 }));
    assert_eq!(decode(&serde_json::Value::Null), Err(DecodeError::NotAList));
    assert_eq!(decode(&serde_json::Value::from(Vec::<serde_json::Value>::new())), Ok(Vec::new()));
    assert_eq!(decode_entry(&serde_json::Value::Bool(true)), None);
}
