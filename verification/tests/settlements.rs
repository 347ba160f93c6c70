use systemd_bridge::bridge::{
    index_entries, settle, shape, Entry, Payload, Settlement, Value, MAX_ENTRIES,
    TOO_MANY_ENTRIES,
};
use systemd_bridge::error::{BridgeError, ErrorKind};

fn entry(index: u32, text: &str) -> Entry {
    Entry { index, text: text.to_string() }
}

#[test]
fn limits_of_the_host_array() {
    assert_eq!(MAX_ENTRIES, 4294967295);
    assert_eq!(TOO_MANY_ENTRIES, "Too many entries for one array");
}

#[test]
fn entries_are_indexed_by_position() {
    let list = vec!["x.target".to_string(), "y.slice".to_string(), "x.target".to_string()];
    assert_eq!(
        index_entries(&list),
        Ok(vec![entry(0, "x.target"), entry(1, "y.slice"), entry(2, "x.target")])
    );
}

#[test]
fn no_strings_give_no_entries() {
    assert_eq!(index_entries(&vec![]), Ok(vec![]));
}

#[test]
fn one_string_gives_entry_zero() {
    assert_eq!(index_entries(&vec!["only".to_string()]), Ok(vec![entry(0, "only")]));
}

#[test]
fn many_entries_keep_order_and_index() {
    let list: Vec<String> = (0..1000).map(|i| format!("unit-{i}.service")).collect();
    let entries = index_entries(&list).unwrap();
    assert_eq!(entries.len(), 1000);
    for (position, entry) in entries.iter().enumerate() {
        assert_eq!(entry.index as usize, position);
        assert_eq!(entry.text, list[position]);
    }
}

#[test]
fn nothing_shapes_to_no_payload() {
    assert_eq!(shape(Value::Nothing), Ok(Payload::Nothing));
}

#[test]
fn text_shapes_to_text() {
    assert_eq!(shape(Value::Text("active".to_string())), Ok(Payload::Text("active".to_string())));
}

#[test]
fn list_shapes_to_array() {
    assert_eq!(
        shape(Value::List(vec!["a".to_string(), "b".to_string()])),
        Ok(Payload::Array(vec![entry(0, "a"), entry(1, "b")]))
    );
}

#[test]
fn success_resolves_with_its_payload() {
    assert_eq!(settle(Ok(Value::Nothing)), Settlement::Resolved(Payload::Nothing));
    assert_eq!(
        settle(Ok(Value::Text("inactive".to_string()))),
        Settlement::Resolved(Payload::Text("inactive".to_string()))
    );
    assert_eq!(
        settle(Ok(Value::List(vec!["multi-user.target".to_string()]))),
        Settlement::Resolved(Payload::Array(vec![entry(0, "multi-user.target")]))
    );
    assert_eq!(
        settle(Ok(Value::List(vec![]))),
        Settlement::Resolved(Payload::Array(vec![]))
    );
}

#[test]
fn failure_rejects_with_its_message() {
    for kind in [ErrorKind::ExecutorInit, ErrorKind::Lookup, ErrorKind::RemoteCall, ErrorKind::Conversion] {
        assert_eq!(
            settle(Err(BridgeError::new(kind, "what went wrong".to_string()))),
            Settlement::Rejected("what went wrong".to_string())
        );
    }
    assert_eq!(
        settle(Err(BridgeError::new(ErrorKind::Connection, "refused".to_string()))),
        Settlement::Rejected("Failed to connect to D-Bus system socket: refused".to_string())
    );
}
