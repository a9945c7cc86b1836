use fluvio_entry::plugin::find_plugin;
use fluvio_entry::plugin::locate;
use fluvio_entry::plugin::probe;
use fluvio_entry::plugin::SearchPath;
use fluvio_entry::plugin::Stage;
use std::cell::RefCell;
use std::path::Path;
use std::path::PathBuf;

fn nowhere() -> SearchPath {
    SearchPath { exe_dir: None, extensions_dir: None }
}

#[test]
fn match_on_system_path_preempts_later_stages() {
    let found = locate(|stage| match stage {
        Stage::SystemPath => Some(PathBuf::from("/usr/bin/fluvio-x")),
        Stage::ExeDir => Some(PathBuf::from("/opt/fluvio/fluvio-x")),
        Stage::ExtensionsDir => Some(PathBuf::from("/home/u/.fluvio/extensions/fluvio-x")),
    });
    assert_eq!(found, Some(PathBuf::from("/usr/bin/fluvio-x")));
}

#[test]
fn match_in_exe_dir_preempts_extensions_dir() {
    let found = locate(|stage| match stage {
        Stage::SystemPath => None,
        Stage::ExeDir => Some(PathBuf::from("/opt/fluvio/fluvio-x")),
        Stage::ExtensionsDir => Some(PathBuf::from("/home/u/.fluvio/extensions/fluvio-x")),
    });
    assert_eq!(found, Some(PathBuf::from("/opt/fluvio/fluvio-x")));
}

#[test]
fn match_in_extensions_dir_is_the_last_resort() {
    let found = locate(|stage| match stage {
        Stage::ExtensionsDir => Some(PathBuf::from("/home/u/.fluvio/extensions/fluvio-x")),
        _ => None,
    });
    assert_eq!(found, Some(PathBuf::from("/home/u/.fluvio/extensions/fluvio-x")));
}

#[test]
fn no_match_at_any_stage_is_none() {
    assert_eq!(locate(|_| None), None);
}

#[test]
fn stages_are_asked_in_order_until_one_matches() {
    let asked = RefCell::new(Vec::new());
    let found = locate(|stage| {
        asked.borrow_mut().push(stage);
        if stage == Stage::ExeDir {
            Some(PathBuf::from("/opt/fluvio/fluvio-x"))
        } else {
            None
        }
    });
    assert_eq!(found, Some(PathBuf::from("/opt/fluvio/fluvio-x")));
    assert_eq!(*asked.borrow(), vec![Stage::SystemPath, Stage::ExeDir]);
}

#[test]
fn all_stages_are_asked_where_none_matches() {
    let asked = RefCell::new(Vec::new());
    let found = locate(|stage| {
        asked.borrow_mut().push(stage);
        None
    });
    assert_eq!(found, None);
    assert_eq!(*asked.borrow(), vec![Stage::SystemPath, Stage::ExeDir, Stage::ExtensionsDir]);
}

#[test]
fn later_stages_are_not_asked_after_a_match_on_system_path() {
    let asked = RefCell::new(Vec::new());
    let found = locate(|stage| {
        asked.borrow_mut().push(stage);
        Some(PathBuf::from("/usr/bin/fluvio-x"))
    });
    assert_eq!(found, Some(PathBuf::from("/usr/bin/fluvio-x")));
    assert_eq!(*asked.borrow(), vec![Stage::SystemPath]);
}

#[test]
fn stage_without_directory_has_no_match() {
    assert_eq!(probe("sh", Stage::ExeDir, &nowhere()), None);
    assert_eq!(probe("sh", Stage::ExtensionsDir, &nowhere()), None);
}

#[test]
fn stage_with_directory_finds_executable_in_it() {
    let search = SearchPath { exe_dir: Some(PathBuf::from("/usr/lib/apt")), extensions_dir: None };
    let found = probe("apt-helper", Stage::ExeDir, &search);
    assert_eq!(found, Some(PathBuf::from("/usr/lib/apt/apt-helper")));
}

#[test]
fn stage_only_searches_its_own_directory() {
    let search = SearchPath { exe_dir: Some(PathBuf::from("/usr/lib/apt")), extensions_dir: None };
    assert_eq!(probe("apt-helper", Stage::ExtensionsDir, &search), None);
    assert_eq!(probe("sh", Stage::ExeDir, &search), None);
}

#[test]
fn system_path_stage_finds_the_shell() {
    let found = probe("sh", Stage::SystemPath, &nowhere()).unwrap();
    assert_eq!(found.file_name(), Path::new("sh").file_name());
    assert!(found.is_absolute());
}

#[test]
fn find_plugin_finds_executable_on_system_path() {
    let found = find_plugin("sh", &nowhere()).unwrap();
    assert_eq!(found.file_name(), Path::new("sh").file_name());
}

#[test]
fn find_plugin_prefers_system_path_over_directories() {
    let on_path = find_plugin("sh", &nowhere()).unwrap();
    let search = SearchPath {
        exe_dir: Some(PathBuf::from("/usr/lib/apt")),
        extensions_dir: Some(PathBuf::from("/usr/lib/apt")),
    };
    assert_eq!(find_plugin("sh", &search), Some(on_path));
}

#[test]
fn find_plugin_falls_back_to_exe_dir() {
    let search = SearchPath { exe_dir: Some(PathBuf::from("/usr/lib/apt")), extensions_dir: None };
    assert_eq!(find_plugin("apt-helper", &search), Some(PathBuf::from("/usr/lib/apt/apt-helper")));
}

#[test]
fn find_plugin_falls_back_to_extensions_dir() {
    let search = SearchPath {
        exe_dir: Some(PathBuf::from("/usr/lib/apt/methods")),
        extensions_dir: Some(PathBuf::from("/usr/lib/apt")),
    };
    assert_eq!(find_plugin("apt-helper", &search), Some(PathBuf::from("/usr/lib/apt/apt-helper")));
}

#[test]
fn find_plugin_without_match_is_none() {
    let search = SearchPath {
        exe_dir: Some(PathBuf::from("/usr/lib/apt")),
        extensions_dir: Some(PathBuf::from("/usr/lib/apt/methods")),
    };
    assert_eq!(find_plugin("fluvio-no-such-plugin", &search), None);
    assert_eq!(find_plugin("fluvio-no-such-plugin", &nowhere()), None);
}

#[test]
fn find_plugin_ignores_files_that_are_not_executable() {
    let search = SearchPath { exe_dir: Some(PathBuf::from("/etc")), extensions_dir: None };
    assert_eq!(find_plugin("os-release", &search), None);
}
