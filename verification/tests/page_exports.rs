use bevy_pieces::page_exports::{export_name, first_unrelayable, fnv1a, relayed_names, PageItem};

#[test]
fn fnv1a_known_values() {
    assert_eq!(fnv1a(""), 0x811c_9dc5);
    assert_eq!(fnv1a("a"), 0xe40c_292c);
    assert_eq!(fnv1a("foobar"), 0xbf9c_f968);
}

#[test]
fn export_name_joins_crate_and_hash() {
    assert_eq!(
        export_name("mycrate", "extern \"C\" { }"),
        "__bevy_page_functions_mycrate_77205535"
    );
    // Hashes below 2^28 keep their leading zeros.
    assert_eq!(export_name("", ""), "__bevy_page_functions__811c9dc5");
}

fn function(name: &str, is_async: bool, returns_value: bool, returns_promise: bool) -> PageItem {
    PageItem::Function {
        page_name: name.to_string(),
        is_async,
        returns_value,
        returns_promise,
    }
}

#[test]
fn relay_check_finds_sync_value_returning_functions() {
    let items = vec![
        function("a", false, false, false),
        PageItem::Other,
        function("b", true, true, false),
        function("c", false, true, true),
    ];
    assert_eq!(first_unrelayable(&items), None);
    let mut bad = items.clone();
    bad.push(function("d", false, true, false));
    bad.push(function("e", false, true, false));
    assert_eq!(first_unrelayable(&bad), Some(4));
}

#[test]
fn relayed_names_skip_other_items() {
    let items = vec![
        function("first", false, false, false),
        PageItem::Other,
        function("second", true, true, false),
    ];
    assert_eq!(relayed_names(&items), vec!["first".to_string(), "second".to_string()]);
}
