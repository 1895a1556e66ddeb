use bevy_pieces::bindings::{BindGroupEntries, BindGroupEntry, DynamicBindGroupEntries};

fn entry(binding: u32, resource: &'static str) -> BindGroupEntry<&'static str> {
    BindGroupEntry { binding, resource }
}

#[test]
fn sequential_entries_count_from_zero() {
    let e: BindGroupEntries<&str, 3> = BindGroupEntries::sequential(vec!["s", "t", "u"]);
    assert_eq!(e.as_slice(), &[entry(0, "s"), entry(1, "t"), entry(2, "u")]);
}

#[test]
fn indexed_entries_keep_their_slots() {
    let e: BindGroupEntries<&str, 2> = BindGroupEntries::with_indexes(vec![(2, "s"), (3, "t")]);
    assert_eq!(e.as_slice(), &[entry(2, "s"), entry(3, "t")]);
}

#[test]
fn dynamic_entries_extend_after_the_last_slot() {
    let e = DynamicBindGroupEntries::sequential(vec!["a", "b"]).extend_sequential(vec!["c", "d"]);
    assert_eq!(
        e.as_slice(),
        &[entry(0, "a"), entry(1, "b"), entry(2, "c"), entry(3, "d")]
    );
    let e = DynamicBindGroupEntries::new_with_indexes(vec![(5, "a")])
        .extend_sequential(vec!["b"])
        .extend_with_indexes(vec![(1, "c")]);
    assert_eq!(e.as_slice(), &[entry(5, "a"), entry(6, "b"), entry(1, "c")]);
}


#[test]
fn entries_dereference_to_slices() {
    let e: BindGroupEntries<u8, 2> = BindGroupEntries::sequential(vec![7, 9]);
    assert_eq!(e.len(), 2);
    assert_eq!(e[1], BindGroupEntry { binding: 1, resource: 9 });
    let d = DynamicBindGroupEntries::sequential(vec![1u8]);
    assert_eq!(d.iter().map(|x| x.binding).collect::<Vec<_>>(), vec![0]);
}
