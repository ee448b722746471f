use xtaskops::ops::{
    clean_files, copy_contents, create_dir_if_missing, get_clean_directory, move_contents,
    nearest_cargo_dir, nearest_cargo_dir_from, path_exists, remove_dir, remove_file,
    workspace_root_from_metadata, OpsError,
};

#[test]
fn clean_directory_creates_missing_path_empty() {
    let dir = "/tmp/xtaskops_scratch_create/nested/deep";
    let _ = remove_dir("/tmp/xtaskops_scratch_create");
    assert!(!path_exists(dir));
    get_clean_directory(dir).unwrap();
    assert!(path_exists(dir));
    let _ = remove_dir("/tmp/xtaskops_scratch_create");
}

#[test]
fn clean_directory_clears_existing_contents() {
    let dir = "/tmp/xtaskops_scratch_clear";
    get_clean_directory(dir).unwrap();
    let file = "/tmp/xtaskops_scratch_clear/stale.txt";
    fs_extra::file::write_all(file, "stale artifact").unwrap();
    assert!(path_exists(file));
    get_clean_directory(dir).unwrap();
    assert!(path_exists(dir));
    assert!(!path_exists(file));
    let _ = remove_dir(dir);
}

#[test]
fn clean_directory_rejects_regular_file() {
    let dir = "/tmp/xtaskops_scratch_file";
    get_clean_directory(dir).unwrap();
    let file = "/tmp/xtaskops_scratch_file/plain.txt";
    fs_extra::file::write_all(file, "keep me").unwrap();
    assert_eq!(get_clean_directory(file), Err(OpsError::NotADirectory));
    assert!(path_exists(file));
    assert_eq!(fs_extra::file::read_to_string(file).unwrap(), "keep me");
    let _ = remove_dir(dir);
}

#[test]
fn clean_files_with_no_match_succeeds() {
    assert!(clean_files("/tmp/xtaskops_scratch_nomatch/*.tmp").is_ok());
}

#[test]
fn clean_files_removes_exactly_the_matches() {
    let dir = "/tmp/xtaskops_scratch_glob";
    get_clean_directory(dir).unwrap();
    fs_extra::file::write_all("/tmp/xtaskops_scratch_glob/a.tmp", "a").unwrap();
    fs_extra::file::write_all("/tmp/xtaskops_scratch_glob/b.tmp", "b").unwrap();
    fs_extra::file::write_all("/tmp/xtaskops_scratch_glob/keep.txt", "c").unwrap();
    clean_files("/tmp/xtaskops_scratch_glob/*.tmp").unwrap();
    assert!(!path_exists("/tmp/xtaskops_scratch_glob/a.tmp"));
    assert!(!path_exists("/tmp/xtaskops_scratch_glob/b.tmp"));
    assert!(path_exists("/tmp/xtaskops_scratch_glob/keep.txt"));
    let _ = remove_dir(dir);
}

#[test]
fn clean_files_rejects_bad_pattern() {
    assert_eq!(clean_files("target/ops_scratch[*.tmp"), Err(OpsError::PatternSyntax));
}

#[test]
fn remove_file_missing_counts_as_removed() {
    assert!(remove_file("/tmp/xtaskops_scratch_missing_file.txt").is_ok());
}

#[test]
fn remove_file_on_directory_is_an_error() {
    let dir = "/tmp/xtaskops_scratch_not_a_file";
    get_clean_directory(dir).unwrap();
    assert_eq!(remove_file(dir), Err(OpsError::Io));
    let _ = remove_dir(dir);
}

#[test]
fn copy_contents_copies_and_respects_overwrite() {
    let src = "/tmp/xtaskops_scratch_copy_src";
    let dst = "/tmp/xtaskops_scratch_copy_dst";
    get_clean_directory(src).unwrap();
    get_clean_directory(dst).unwrap();
    fs_extra::file::write_all("/tmp/xtaskops_scratch_copy_src/f.txt", "payload").unwrap();
    copy_contents(src, dst, false).unwrap();
    assert!(path_exists("/tmp/xtaskops_scratch_copy_dst/f.txt"));
    assert!(path_exists("/tmp/xtaskops_scratch_copy_src/f.txt"));
    assert_eq!(copy_contents(src, dst, false), Err(OpsError::Io));
    assert!(copy_contents(src, dst, true).is_ok());
    let _ = remove_dir(src);
    let _ = remove_dir(dst);
}

#[test]
fn move_contents_moves_the_files() {
    let src = "/tmp/xtaskops_scratch_move_src";
    let dst = "/tmp/xtaskops_scratch_move_dst";
    get_clean_directory(src).unwrap();
    get_clean_directory(dst).unwrap();
    fs_extra::file::write_all("/tmp/xtaskops_scratch_move_src/f.txt", "payload").unwrap();
    move_contents(src, dst, true).unwrap();
    assert!(path_exists("/tmp/xtaskops_scratch_move_dst/f.txt"));
    assert!(!path_exists("/tmp/xtaskops_scratch_move_src/f.txt"));
    let _ = remove_dir(src);
    let _ = remove_dir(dst);
}

#[test]
fn create_dir_if_missing_keeps_existing_contents() {
    let dir = "/tmp/xtaskops_scratch_keep";
    get_clean_directory(dir).unwrap();
    fs_extra::file::write_all("/tmp/xtaskops_scratch_keep/f.txt", "x").unwrap();
    create_dir_if_missing(dir).unwrap();
    assert!(path_exists("/tmp/xtaskops_scratch_keep/f.txt"));
    let _ = remove_dir(dir);
}

#[test]
fn nearest_cargo_dir_agrees_with_the_manifest_probe() {
    match nearest_cargo_dir() {
        Ok(found) => assert!(path_exists(&format!("{}/Cargo.toml", found))),
        Err(e) => assert!(e == OpsError::NotFound || e == OpsError::Io),
    }
}

#[test]
fn nearest_cargo_dir_from_finds_marked_ancestor() {
    let root = "/tmp/xtaskops_scratch_walk";
    get_clean_directory("/tmp/xtaskops_scratch_walk/a/b").unwrap();
    fs_extra::file::write_all("/tmp/xtaskops_scratch_walk/Cargo.toml", "[package]").unwrap();
    let found = nearest_cargo_dir_from("/tmp/xtaskops_scratch_walk/a/b".to_string()).unwrap();
    assert_eq!(found, "/tmp/xtaskops_scratch_walk");
    let _ = remove_dir(root);
}

#[test]
fn path_exists_probe() {
    assert!(path_exists("."));
    assert!(!path_exists("/tmp/xtaskops_scratch_definitely_missing_zzz"));
}

#[test]
fn workspace_root_extraction() {
    assert_eq!(
        workspace_root_from_metadata("{\"workspace_root\":\"/ws/root\",\"packages\":[]}").unwrap(),
        "/ws/root"
    );
    assert_eq!(workspace_root_from_metadata("not json"), Err(OpsError::Malformed));
    assert_eq!(workspace_root_from_metadata("{}"), Err(OpsError::Malformed));
    assert_eq!(
        workspace_root_from_metadata("{\"workspace_root\":3}"),
        Err(OpsError::Malformed)
    );
    assert_eq!(workspace_root_from_metadata("[1,2]"), Err(OpsError::Malformed));
}
