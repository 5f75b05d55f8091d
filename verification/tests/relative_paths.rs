use std::collections::hash_map::DefaultHasher;
use std::hash::Hash;
use std::hash::Hasher;
use tourist::path::RelativePathBuf;

#[test]
fn join_works() {
    let mut path = RelativePathBuf::from_components(vec![]).join("some".to_owned());
    assert_eq!(path.components().len(), 1);
    assert_eq!(path.components()[0], "some");

    path = path.join("dir".to_owned());
    assert_eq!(path.components().len(), 2);
    assert_eq!(path.components()[0], "some");
    assert_eq!(path.components()[1], "dir");
}

#[test]
fn from_components_works() {
    let path = RelativePathBuf::from_components(vec!["some".to_owned(), "dir".to_owned()]);
    assert_eq!(path.components().len(), 2);
    assert_eq!(path.components()[0], "some");
    assert_eq!(path.components()[1], "dir");
}

#[test]
fn from_str_works() {
    {
        let path: RelativePathBuf = "some/dir".into();
        assert_eq!(path.components().len(), 2);
        assert_eq!(path.components()[0], "some");
        assert_eq!(path.components()[1], "dir");
    }

    {
        let path: RelativePathBuf = "some".into();
        assert_eq!(path.components().len(), 1);
        assert_eq!(path.components()[0], "some");
    }

    {
        let path: RelativePathBuf = "".into();
        assert_eq!(path.components().len(), 0);
    }

    {
        let path: RelativePathBuf = "/some//dir/".into();
        assert_eq!(path.components().len(), 2);
        assert_eq!(path.components()[0], "some");
        assert_eq!(path.components()[1], "dir");
    }
}

#[test]
fn parse_handles_separators_only() {
    assert_eq!(RelativePathBuf::parse("/").components().len(), 0);
    assert_eq!(RelativePathBuf::parse("///").components().len(), 0);

    let path = RelativePathBuf::parse("a/b/c");
    assert_eq!(path.components(), &vec!["a".to_owned(), "b".to_owned(), "c".to_owned()]);
}

#[test]
fn git_path_joins_with_slash() {
    let path = RelativePathBuf::from_components(vec!["some".to_owned(), "dir".to_owned()]);
    assert_eq!(path.as_git_path(), "some/dir");

    let single = RelativePathBuf::from_components(vec!["some".to_owned()]);
    assert_eq!(single.as_git_path(), "some");

    let empty = RelativePathBuf::from_components(vec![]);
    assert_eq!(empty.as_git_path(), "");
}

#[test]
fn portable_round_trip() {
    let path = RelativePathBuf::from_components(vec![
        "some".to_owned(),
        "dir".to_owned(),
        "file.rs".to_owned(),
    ]);
    let reparsed = RelativePathBuf::parse(&path.as_git_path());
    assert_eq!(reparsed, path);
}

#[test]
fn native_path_buf_rendering() {
    let path = RelativePathBuf::from_components(vec!["some".to_owned(), "dir".to_owned()]);
    let mut expected = std::path::PathBuf::new();
    expected.push("some");
    expected.push("dir");
    assert_eq!(path.as_path_buf(), expected);

    let empty = RelativePathBuf::from_components(vec![]);
    assert_eq!(empty.as_path_buf(), std::path::PathBuf::new());
}

#[test]
fn equality_is_structural() {
    let parsed: RelativePathBuf = "/some//dir/".into();
    let bulk = RelativePathBuf::from_components(vec!["some".to_owned(), "dir".to_owned()]);
    let joined = RelativePathBuf::from_components(vec![])
        .join("some".to_owned())
        .join("dir".to_owned());

    assert_eq!(parsed, bulk);
    assert_eq!(parsed, joined);
    assert_eq!(bulk, joined);

    assert_ne!(parsed, RelativePathBuf::parse("some"));
    assert_ne!(parsed, RelativePathBuf::parse("some/dir2"));
}

#[test]
fn hash_is_structural() {
    let hash_of = |p: &RelativePathBuf| {
        let mut h = DefaultHasher::new();
        p.hash(&mut h);
        h.finish()
    };

    let parsed: RelativePathBuf = "/some//dir/".into();
    let bulk = RelativePathBuf::from_components(vec!["some".to_owned(), "dir".to_owned()]);
    let joined = RelativePathBuf::from_components(vec![])
        .join("some".to_owned())
        .join("dir".to_owned());

    assert_eq!(hash_of(&parsed), hash_of(&bulk));
    assert_eq!(hash_of(&parsed), hash_of(&joined));
}
