use ferrite::world_list::listed_world_names;

fn names(v: &[&str]) -> Vec<String> {
    v.iter().map(|s| s.to_string()).collect()
}

#[test]
fn hidden_names_are_left_out_and_the_rest_sorted() {
    let r = listed_world_names(&names(&["world", ".git", "Alpha", "beta", ".hidden", "alpha"]));
    assert_eq!(r, names(&["Alpha", "alpha", "beta", "world"]));
}

#[test]
fn byte_order_and_repeats() {
    let r = listed_world_names(&names(&["b", "ab", "a", "é", "z", "a", ""]));
    assert_eq!(r, names(&["", "a", "a", "ab", "b", "z", "é"]));
    assert!(listed_world_names(&[]).is_empty());
    assert!(listed_world_names(&names(&[".", ".a"])).is_empty());
}
