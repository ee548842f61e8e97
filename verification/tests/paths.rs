use desktoprecorder::paths::{join, path_extension, split_pieces};
use std::path::Path;

#[test]
fn extensions_agree_with_the_standard_library() {
    let paths = [
        "", "/", ".", "..", "a", "a.b", "a.", ".a", ".a.b", "a.b.c", "a/b.c", "a.b/c", "a.b/", "a.b//",
        "a.b/.", "a.b/./", "a.b/..", "../x.y", "./x.y", "//x.y", "x..y", "...", "..x", "/a/./b.c/.",
    ];
    for path in paths {
        let expected = Path::new(path).extension().map(|e| e.to_str().unwrap().as_bytes().to_vec());
        assert_eq!(path_extension(path.as_bytes()), expected, "{path:?}");
    }
}

#[test]
fn joining_agrees_with_the_standard_library() {
    for base in ["", "/", "a", "a/", "/home/me", "/home/me/", ".", "//"] {
        for name in ["x", "x.y", ".config"] {
            let expected = Path::new(base).join(name);
            assert_eq!(join(base.as_bytes(), name.as_bytes()), expected.to_str().unwrap().as_bytes());
        }
    }
}

#[test]
fn pieces_are_what_lies_between_separators() {
    assert_eq!(split_pieces(b"Navigator\0Firefox\0", 0), vec![b"Navigator".to_vec(), b"Firefox".to_vec()]);
    assert_eq!(split_pieces(b"\0\0x\0", 0), vec![b"x".to_vec()]);
    assert!(split_pieces(b"", 0).is_empty());
}
