use simple_text::config::Config;
use simple_text::publish::{
    add_buffer, commit_buffer, push_to_repo, Author, CommitRecord, HEAD_REF,
};

fn write_test_config() -> Config {
    Config {
        url: "git@github.com:boomerlen/text-upload.git".to_string(),
        local_dir: "/tmp/test-simple-text".to_string(),
        branch: "test-branch".to_string(),
        buffer_dir_rel: "test-buffers".to_string(),
        ssh_file: "/home/ann/.ssh/id_rsa".to_string(),
    }
}

fn ann() -> Author {
    Author { name: "Ann".to_string(), email: "ann@example.org".to_string() }
}

const TREE: &str = "4b825dc642cb6eb9a060e54bf8d69288fbee4904";
const HEAD: &str = "aaaaaaaaaaaaaaaaaaaaaaaaaaaaaaaaaaaaaaaa";

#[test]
fn test_add() {
    let conf = write_test_config();
    let buf_name = String::from("places.md");
    let request = add_buffer(&buf_name, &conf);
    assert_eq!(request.path, "test-buffers/places.md");
}

#[test]
fn test_commit() {
    let record = commit_buffer(TREE.to_string(), ann(), HEAD.to_string());
    assert_eq!(record.tree_oid, TREE);
    assert_eq!(record.author, ann());
    assert_eq!(record.parent_oid, HEAD);
    assert_eq!(record.parents(), vec![HEAD.to_string()]);
    assert_eq!(record.update_ref(), "HEAD");
    let m: Vec<char> = record.message.chars().collect();
    assert_eq!(m.len(), 15);
    assert_eq!((m[2], m[6], m[9], m[12]), ('_', '_', '-', '_'));
    for i in [0, 1, 7, 8, 10, 11, 13, 14] {
        assert!(m[i].is_ascii_digit());
    }
}

#[test]
fn test_push() {
    let conf = write_test_config();
    let request = push_to_repo(&conf);
    assert_eq!(request.remote, "origin");
    assert_eq!(request.refspec, "refs/heads/test-branch:refs/heads/test-branch");
    assert_eq!(request.ssh_file, "/home/ann/.ssh/id_rsa");
}

#[test]
fn a_commit_has_exactly_one_parent() {
    let record = CommitRecord::new(
        TREE.to_string(),
        ann(),
        "05_Mar_24-17_42".to_string(),
        HEAD.to_string(),
    );
    assert_eq!(record.message, "05_Mar_24-17_42");
    assert_eq!(record.parents().len(), 1);
    assert_eq!(record.parents()[0], HEAD);
    assert_ne!(record.parents()[0], TREE);
    assert_eq!(HEAD_REF, "HEAD");
}

#[test]
fn staged_path_is_relative_to_the_mirror() {
    let conf = write_test_config();
    let request = add_buffer(&"nobuffer/05-Mar-24:17-42.md".to_string(), &conf);
    assert_eq!(request.path, "test-buffers/nobuffer/05-Mar-24:17-42.md");
    assert!(!request.path.starts_with('/'));
}
