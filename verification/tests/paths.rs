use std::path::Path;

use gui::component::message_page::send_message_entity::{upload_file_name, SendMessageEntity};
use gui::path::{file_name, is_same_unix_path, path_parts};

const CASES: &[&str] = &[
    "", "/", "//", "/a", "//a", "/a/", "/a//b", "/a/b", "/a/./b", "/./a/b", "a/b", "./a/b", ".",
    "./", "..", "../a", "a/../b", "a/b/.", "a/b/..", ".a", "./.", "a//", "/a/b/", "x.txt",
];

#[test]
fn same_path_agrees_with_std_path_equality() {
    for a in CASES {
        for b in CASES {
            assert_eq!(is_same_unix_path(a, b), Path::new(a) == Path::new(b), "{:?} vs {:?}", a, b);
        }
    }
}

#[test]
fn path_parts_of_a_messy_path() {
    let p = path_parts("/home//user/./docs/");
    assert!(p.root);
    assert!(!p.cur_dir);
    assert_eq!(p.segments, vec!["home".to_string(), "user".to_string(), "docs".to_string()]);
    let q = path_parts("./a/../b");
    assert!(!q.root);
    assert!(q.cur_dir);
    assert_eq!(q.segments, vec!["a".to_string(), "..".to_string(), "b".to_string()]);
}

#[test]
fn pick_files_compares_paths_by_components() {
    let mut p = SendMessageEntity::new();
    p.pick_files(vec!["/home/u/a.txt".to_string()]);
    p.pick_files(vec!["/home//u/./a.txt".to_string(), "/home/u/b.txt".to_string()]);
    assert_eq!(p.pick_send_files, vec!["/home/u/a.txt".to_string(), "/home/u/b.txt".to_string()]);
    assert_eq!(p.err_msg, "");
}

#[test]
fn file_name_agrees_with_std() {
    for p in CASES {
        let expected = Path::new(p).file_name().map(|n| n.to_string_lossy().into_owned());
        assert_eq!(file_name(p), expected, "{:?}", p);
    }
}

#[test]
fn upload_names() {
    assert_eq!(upload_file_name("/home/u/report.pdf"), "report.pdf");
    assert_eq!(upload_file_name("/home/u/docs/"), "docs");
    assert_eq!(upload_file_name("/home/u/.."), "unknown_file");
    assert_eq!(upload_file_name("/"), "unknown_file");
    assert_eq!(upload_file_name(""), "unknown_file");
}
