use npr_materials::scene_ref::parse_scene_reference;

#[test]
fn plain_path_has_scene_zero() {
    let r = parse_scene_reference("models/x.glb");
    assert_eq!(r.path, "models/x.glb");
    assert_eq!(r.scene_index, 0);
}

#[test]
fn scene_label_is_split_off() {
    let r = parse_scene_reference("models/x.glb#Scene2");
    assert_eq!(r.path, "models/x.glb");
    assert_eq!(r.scene_index, 2);
}

#[test]
fn unparsable_label_falls_back_to_the_whole_string() {
    let r = parse_scene_reference("models/x.glb#Foo");
    assert_eq!(r.path, "models/x.glb#Foo");
    assert_eq!(r.scene_index, 0);
}

#[test]
fn the_final_hash_wins() {
    let r = parse_scene_reference("a#b#Scene3");
    assert_eq!(r.path, "a#b");
    assert_eq!(r.scene_index, 3);
}

#[test]
fn label_without_digits_falls_back() {
    let r = parse_scene_reference("models/x.glb#Scene");
    assert_eq!(r.path, "models/x.glb#Scene");
    assert_eq!(r.scene_index, 0);
}

#[test]
fn lower_case_label_falls_back() {
    let r = parse_scene_reference("models/x.glb#scene2");
    assert_eq!(r.path, "models/x.glb#scene2");
    assert_eq!(r.scene_index, 0);
}

#[test]
fn label_with_trailing_junk_falls_back() {
    let r = parse_scene_reference("models/x.glb#Scene2b");
    assert_eq!(r.path, "models/x.glb#Scene2b");
    assert_eq!(r.scene_index, 0);
}

#[test]
fn empty_path_before_hash_is_kept() {
    let r = parse_scene_reference("#Scene7");
    assert_eq!(r.path, "");
    assert_eq!(r.scene_index, 7);
}

#[test]
fn empty_string_is_a_plain_path() {
    let r = parse_scene_reference("");
    assert_eq!(r.path, "");
    assert_eq!(r.scene_index, 0);
}

#[test]
fn trailing_hash_falls_back() {
    let r = parse_scene_reference("models/x.glb#");
    assert_eq!(r.path, "models/x.glb#");
    assert_eq!(r.scene_index, 0);
}

#[test]
fn leading_zeros_are_plain_decimal() {
    let r = parse_scene_reference("m.glb#Scene0010");
    assert_eq!(r.path, "m.glb");
    assert_eq!(r.scene_index, 10);
}

#[test]
fn largest_index_fits() {
    let r = parse_scene_reference("m.glb#Scene4294967295");
    assert_eq!(r.path, "m.glb");
    assert_eq!(r.scene_index, 4294967295);
}

#[test]
fn index_past_the_limit_falls_back() {
    let r = parse_scene_reference("m.glb#Scene4294967296");
    assert_eq!(r.path, "m.glb#Scene4294967296");
    assert_eq!(r.scene_index, 0);
}

#[test]
fn very_long_index_with_leading_zeros_still_fits() {
    let r = parse_scene_reference("m.glb#Scene000000000042");
    assert_eq!(r.path, "m.glb");
    assert_eq!(r.scene_index, 42);
}

#[test]
fn non_ascii_paths_are_preserved() {
    let r = parse_scene_reference("mödels/tüzi.glb#Scene1");
    assert_eq!(r.path, "mödels/tüzi.glb");
    assert_eq!(r.scene_index, 1);

    let fallback = parse_scene_reference("mödels/tüzi.glb#Szene1");
    assert_eq!(fallback.path, "mödels/tüzi.glb#Szene1");
    assert_eq!(fallback.scene_index, 0);
}
