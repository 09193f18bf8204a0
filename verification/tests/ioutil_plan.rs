use rustshop::ioutil::{store_str_to_file, CfgFileIOError, SaveStep};

#[test]
fn a_path_without_parent_is_refused() {
    assert_eq!(store_str_to_file("/", None, "text").map(|_| ()), Err(CfgFileIOError::RootPath));
}

#[test]
fn a_store_is_written_beside_itself_and_renamed_last() {
    let plan =
        store_str_to_file("/r/.config/shop.yaml", Some("/r/.config".to_string()), "name: acme\n")
            .unwrap();
    assert_eq!(plan.len(), 5);
    assert!(matches!(&plan[0], SaveStep::CreateDirs { dir } if dir == "/r/.config"));
    assert!(matches!(&plan[1], SaveStep::Create { path } if path == "/r/.config/shop.yaml.tmp"));
    assert!(matches!(&plan[2], SaveStep::Write { path, text }
        if path == "/r/.config/shop.yaml.tmp" && text == "name: acme\n"));
    assert!(matches!(&plan[3], SaveStep::Sync { path } if path == "/r/.config/shop.yaml.tmp"));
    assert!(matches!(&plan[4], SaveStep::Rename { from, to }
        if from == "/r/.config/shop.yaml.tmp" && to == "/r/.config/shop.yaml"));
}

#[test]
fn only_the_last_step_touches_the_store() {
    let path = "/r/.config/user.yaml";
    let plan = store_str_to_file(path, Some("/r/.config".to_string()), "").unwrap();
    for step in &plan[..plan.len() - 1] {
        let touched = match step {
            SaveStep::CreateDirs { dir } => dir == path,
            SaveStep::Create { path: p } => p == path,
            SaveStep::Write { path: p, .. } => p == path,
            SaveStep::Sync { path: p } => p == path,
            SaveStep::Rename { from, to } => from == path || to == path,
        };
        assert!(!touched);
    }
}

#[test]
fn file_errors_say_what_went_wrong() {
    assert_eq!(CfgFileIOError::Io.message(), "IO Error");
    assert_eq!(CfgFileIOError::Serde.message(), "Serialization error");
    assert_eq!(CfgFileIOError::RootPath.message(), "Can't write to `/`");
}
