use swoon::paths::{BinaryName, DataDir, Directory};
use swoon::text::split_string;

#[test]
fn test_split_string() {
    let result = split_string(" ", String::from("happy new year"));
    assert_eq!(result, vec!("happy".to_string(), "new".to_string(), "year".to_string()));
}

#[test]
fn test_split_string_with_empty_input() {
    let result = split_string(" ", String::from(""));
    assert_eq!(result, Vec::<String>::new());
}

#[test]
fn split_keeps_empty_pieces_between_separators() {
    assert_eq!(
        split_string("\n", String::from("a\n\nb")),
        vec!["a".to_string(), "".to_string(), "b".to_string()]
    );
    assert_eq!(split_string("\n", String::from("a\n")), vec!["a".to_string(), "".to_string()]);
    assert_eq!(split_string("\n", String::from("\na")), vec!["".to_string(), "a".to_string()]);
}

#[test]
fn split_handles_multi_character_separators() {
    assert_eq!(
        split_string("::", String::from("a::b::c")),
        vec!["a".to_string(), "b".to_string(), "c".to_string()]
    );
    assert_eq!(split_string("--", String::from("a-b")), vec!["a-b".to_string()]);
}

#[test]
fn split_without_separator_is_one_piece() {
    assert_eq!(split_string("\n", String::from("solo")), vec!["solo".to_string()]);
}

#[test]
fn decimal_renderings() {
    assert_eq!("0", swoon::digits::u64_to_string(0));
    assert_eq!("7", swoon::digits::u64_to_string(7));
    assert_eq!("1204", swoon::digits::u64_to_string(1204));
    assert_eq!("04", swoon::digits::pad2_string(4));
    assert_eq!("20", swoon::digits::pad2_string(20));
    assert_eq!("123", swoon::digits::pad2_string(123));
    assert_eq!("-5", swoon::digits::i32_to_string(-5));
    assert_eq!("42", swoon::digits::i32_to_string(42));
}

#[test]
fn data_dir_paths() {
    assert_eq!("./.swoon", DataDir::path());
    assert_eq!("./.swoon/images", DataDir::sub_dir_path("images"));
    assert_eq!("./.swoon/roles", Directory::AnsibleRoles.path());
    assert_eq!(
        "./.swoon/roles/firewall/tasks",
        Directory::AnsibleRole { role_name: "firewall".to_string() }.sub_path("tasks")
    );
    assert_eq!("./.swoon/archetype.pkr.hcl", Directory::GeneratedRoot.join_path("archetype.pkr.hcl"));
    assert_eq!(".", Directory::ProjectRoot.path());
}

#[test]
fn binary_names() {
    let all = BinaryName::all();
    assert_eq!(1, all.len());
    assert_eq!("gcloud", all[0].filename());
}
