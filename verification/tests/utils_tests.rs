use concurrent_file_processor::config::ProcessingConfig;
use concurrent_file_processor::error::AppError;
use concurrent_file_processor::utils::{
    derive_output_name, extract_file_name, format_file_size, hash_file_content, join_path,
    open_error_is_lock_signal, validate_file_path,
};

#[test]
fn hash_known_digests() {
    // Well-known SHA-256 values, rendered as lowercase hex.
    assert_eq!(
        hash_file_content(b""),
        "e3b0c44298fc1c149afbf4c8996fb92427ae41e4649b934ca495991b7852b855"
    );
    assert_eq!(
        hash_file_content(b"abc"),
        "ba7816bf8f01cfea414140de5dae2223b00361a396177a9cb410ff61f20015ad"
    );
    assert_eq!(
        hash_file_content(b"hello"),
        "2cf24dba5fb0a30e26e83b2ac5b9e29e1b161e5c1fa7425e73043362938b9824"
    );
}

#[test]
fn file_name_extraction() {
    assert_eq!(extract_file_name("dir/a.txt").unwrap(), "a.txt");
    assert_eq!(extract_file_name("a.txt").unwrap(), "a.txt");
    assert_eq!(extract_file_name("a/b/c.bin").unwrap(), "c.bin");
    assert_eq!(extract_file_name("/abs/path/file").unwrap(), "file");
}

#[test]
fn file_name_ignores_trailing_separators_and_dots() {
    // Trailing separators and trailing `.` components say nothing about
    // which file is meant.
    assert_eq!(extract_file_name("a.txt/").unwrap(), "a.txt");
    assert_eq!(extract_file_name("foo.txt/.").unwrap(), "foo.txt");
    assert_eq!(extract_file_name("dir//").unwrap(), "dir");
    assert_eq!(extract_file_name("a/b/./").unwrap(), "b");
    assert_eq!(extract_file_name("./a.txt").unwrap(), "a.txt");
}

#[test]
fn file_name_missing() {
    for path in ["", "/", "//", ".", "./.", "..", "dir/..", "a/../"] {
        match extract_file_name(path) {
            Err(AppError::Processing(m)) => {
                assert_eq!(m, format!("Could not get file name for {}", path));
            }
            _ => panic!("path {:?} must have no file name", path),
        }
    }
}

#[test]
fn output_name_derivation() {
    assert_eq!(derive_output_name("a.txt", ".processed.txt"), "a.processed.txt");
    assert_eq!(derive_output_name("archive.tar.gz", ".out"), "archive.tar.out");
    assert_eq!(derive_output_name("noext", ".p"), "noext.p");
    assert_eq!(derive_output_name(".gitignore", ".p"), ".gitignore.p");
    assert_eq!(derive_output_name("a.", ".p"), "a.p");
}

#[test]
fn path_joining() {
    assert_eq!(join_path("out", "a.txt"), "out/a.txt");
    assert_eq!(join_path("out/", "a.txt"), "out/a.txt");
    assert_eq!(join_path("", "a.txt"), "a.txt");
}

#[test]
fn path_validation() {
    assert!(validate_file_path("x", true, true).is_ok());
    match validate_file_path("x", false, false) {
        Err(AppError::Processing(m)) => assert_eq!(m, "File does not exist: x"),
        _ => panic!("a missing path must be rejected"),
    }
    match validate_file_path("d", true, false) {
        Err(AppError::Processing(m)) => assert_eq!(m, "Path is not a file: d"),
        _ => panic!("a non-file path must be rejected"),
    }
}

#[test]
fn file_size_formatting() {
    assert_eq!(format_file_size(0), "0 B");
    assert_eq!(format_file_size(512), "512 B");
    assert_eq!(format_file_size(1023), "1023 B");
    assert_eq!(format_file_size(1024), "1.0 KB");
    assert_eq!(format_file_size(1536), "1.5 KB");
    // The decimal place is rounded to nearest.
    assert_eq!(format_file_size(1535), "1.5 KB");
    assert_eq!(format_file_size(2038), "2.0 KB");
    // An exact tie goes to the even tenth: 1280 bytes is 1.25 KB.
    assert_eq!(format_file_size(1280), "1.2 KB");
    assert_eq!(format_file_size(1024 * 1024), "1.0 MB");
    assert_eq!(format_file_size(1024 * 1024 + 512 * 1024), "1.5 MB");
    assert_eq!(format_file_size(1024 * 1024 * 1024), "1.0 GB");
    assert_eq!(format_file_size(3 * 1024 * 1024 * 1024 + 256 * 1024 * 1024), "3.2 GB");
}

#[test]
fn lock_signal_classification() {
    let config = ProcessingConfig::default();
    assert!(open_error_is_lock_signal(Some(32), &config));
    assert!(!open_error_is_lock_signal(Some(5), &config));
    assert!(!open_error_is_lock_signal(None, &config));
}
