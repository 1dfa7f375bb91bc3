use sigvim::config::watcher::{is_relevant, paths_equal, FsEvent, FsEventKind};

fn ev(kind: FsEventKind, paths: &[&str]) -> FsEvent {
    FsEvent { kind, paths: paths.iter().map(|p| p.to_string()).collect() }
}

#[test]
fn paths_compare_by_components() {
    assert!(paths_equal("/home/u/.config/sigvim/config.toml", "/home/u//.config/./sigvim/config.toml"));
    assert!(paths_equal("/a/b/", "/a/b"));
    assert!(!paths_equal("a/b", "/a/b"));
    assert!(!paths_equal("./a", "a"));
    assert!(paths_equal("./a/./b", "./a/b"));
    assert!(!paths_equal("/a/../b", "/b"));
}

#[test]
fn only_changes_to_the_target_count() {
    let target = "/cfg/config.toml";
    assert!(is_relevant(Some(&ev(FsEventKind::Modify, &["/cfg/config.toml"])), target));
    assert!(is_relevant(Some(&ev(FsEventKind::Create, &["/cfg/other", "/cfg/config.toml"])), target));
    assert!(is_relevant(Some(&ev(FsEventKind::Remove, &["/cfg//config.toml"])), target));
    assert!(!is_relevant(Some(&ev(FsEventKind::Access, &["/cfg/config.toml"])), target));
    assert!(!is_relevant(Some(&ev(FsEventKind::Modify, &["/cfg/config.toml.tmp"])), target));
    assert!(!is_relevant(None, target));
}
