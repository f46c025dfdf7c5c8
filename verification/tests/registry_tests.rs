use secure_container::errors::SecureContainerErr;
use secure_container::registry::add_to_auto_open;
use secure_container::registry::reading_auto_open;
use secure_container::registry::remove_from_auto_open;
use secure_container::registry::writing_to_auto_open;

#[test]
fn test_auto_open_write() {
    let mount_point = "/mnt";
    let path = "/path";
    let namespace = "namespace";
    let id = "id";
    let data = format!("{},{},{},{}\n", mount_point, path, namespace, id);
    let contents = writing_to_auto_open(mount_point, path, namespace, id, "");
    assert_eq!(contents, data);
}

#[test]
fn test_auto_open_read() {
    let mount_point = "/mnt";
    let path = "/path";
    let namespace = "namespace";
    let id = "id";
    let data = format!("{},{},{},{}\n", mount_point, path, namespace, id);
    let result = reading_auto_open(data.as_str());
    assert_eq!(result.len(), 1);
    assert_eq!(result[0][0], mount_point);
    assert_eq!(result[0][1], path);
    assert_eq!(result[0][2], namespace);
    assert_eq!(result[0][3], id);
}

#[test]
fn test_remove_from_auto_open() {
    let mount_point = "/mnt";
    let path = "/path";
    let namespace = "namespace";
    let id = "id";
    let data = format!("{},{},{},{}\n", mount_point, path, namespace, id);
    let contents = remove_from_auto_open(mount_point, path, namespace, id, data.as_str());
    assert_eq!(contents, "");
}

#[test]
fn append_then_read_contains_the_entry() {
    let contents = writing_to_auto_open("/mnt/a", "/data", "box1", "id1", "");
    let contents = writing_to_auto_open("/mnt/b", "/data", "box2", "id2", contents.as_str());
    let records = reading_auto_open(contents.as_str());
    assert_eq!(records.len(), 2);
    assert_eq!(records[0], vec!["/mnt/a", "/data", "box1", "id1"]);
    assert_eq!(records[1], vec!["/mnt/b", "/data", "box2", "id2"]);
}

#[test]
fn remove_filters_exact_tuple_matches_and_is_idempotent() {
    let contents = writing_to_auto_open("/mnt/a", "/data", "box1", "id1", "");
    let contents = writing_to_auto_open("/mnt/b", "/data", "box2", "id2", contents.as_str());
    // a record differing in one field stays
    let removed = remove_from_auto_open("/mnt/a", "/data", "box2", "id1", contents.as_str());
    assert_eq!(removed.as_str(), contents.as_str());
    // an exact-tuple match leaves, others stay
    let removed = remove_from_auto_open("/mnt/a", "/data", "box1", "id1", contents.as_str());
    assert_eq!(removed.as_str(), "/mnt/b,/data,box2,id2\n");
    let records = reading_auto_open(removed.as_str());
    assert_eq!(records.len(), 1);
    assert!(!records.iter().any(|r| r[2] == "box1"));
    // removing a second time is safe and changes nothing
    let twice = remove_from_auto_open("/mnt/a", "/data", "box1", "id1", removed.as_str());
    assert_eq!(twice.as_str(), removed.as_str());
}

#[test]
fn single_field_lines_are_dropped() {
    let text = "garbage\n/mnt,/data,box1,id1\n\n";
    let records = reading_auto_open(text);
    assert_eq!(records.len(), 1);
    assert_eq!(records[0][2], "box1");
}

#[test]
fn add_to_auto_open_validates_first() {
    // a nonexistent path is rejected before anything would be written
    let result = add_to_auto_open(
        "/",
        "/no_such_file_at_all",
        "box1",
        "id1",
        true,
        "",
    );
    assert_eq!(result, Err(SecureContainerErr::PathNotExists));
    // a valid entry is appended to the registry text
    let result = add_to_auto_open("/", "/etc/hostname", "box1", "id1", true, "");
    assert_eq!(result, Ok("/,/etc/hostname,box1,id1\n".to_string()));
}
