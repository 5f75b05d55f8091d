use std::collections::HashMap;
use tourist::path::AbsolutePathBuf;
use tourist::path::RelativePathBuf;
use tourist::Index;
use tourist::Stop;
use tourist::Tour;

fn sample_stop(repository: &str) -> Stop {
    Stop {
        id: "stop-1".to_owned(),
        title: "The parser".to_owned(),
        body: "Where parsing starts.".to_owned(),
        path: RelativePathBuf::parse("src/parser.rs"),
        repository: repository.to_owned(),
        line: 42,
    }
}

#[test]
fn tour_with_known_repositories_checks_out() {
    let mut repositories = HashMap::new();
    repositories.insert("main".to_owned(), "https://example.invalid/main.git".to_owned());

    let tour = Tour {
        protocol_version: "1.0".to_owned(),
        id: "tour-1".to_owned(),
        title: "A short walk".to_owned(),
        description: "One stop only.".to_owned(),
        stops: vec![sample_stop("main")],
        repositories,
    };

    assert!(tour.check_stops_resolved());
    assert_eq!(tour.stops.len(), 1);
    assert_eq!(tour.stops[0].line, 42);
    assert_eq!(tour.stops[0].path.as_git_path(), "src/parser.rs");
}

#[test]
fn tour_with_dangling_repository_fails_the_check() {
    let mut repositories = HashMap::new();
    repositories.insert("main".to_owned(), "https://example.invalid/main.git".to_owned());

    let tour = Tour {
        protocol_version: "1.0".to_owned(),
        id: "tour-2".to_owned(),
        title: "A broken walk".to_owned(),
        description: "The stop names a repository the tour does not know.".to_owned(),
        stops: vec![sample_stop("elsewhere")],
        repositories,
    };

    assert!(!tour.check_stops_resolved());
}

#[test]
fn index_maps_names_to_absolute_paths() {
    let home = dirs::home_dir().unwrap();
    let mut index: Index = HashMap::new();
    index.insert("main".to_owned(), AbsolutePathBuf::new(home.clone()).unwrap());

    assert_eq!(index.get("main").unwrap().as_path_buf(), &home);
    assert!(index.get("other").is_none());
}
