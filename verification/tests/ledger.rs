use cpp_catalog::checker::{
    CppCheckerAddResult, CppCheckerEnv, CppCheckerInfoList, Target,
};

fn env(arch: &str, version: Option<&str>) -> CppCheckerEnv {
    CppCheckerEnv {
        target: Target {
            arch: arch.to_owned(),
            os: "linux".to_owned(),
            family: "unix".to_owned(),
            env: "gnu".to_owned(),
        },
        cpp_library_version: version.map(|v| v.to_owned()),
    }
}

fn fresh_list() -> CppCheckerInfoList {
    CppCheckerInfoList { items: Vec::new() }
}

#[test]
fn default_ledger_is_empty() {
    let list: CppCheckerInfoList = Default::default();
    assert_eq!(list.items.len(), 0);
}

#[test]
fn record_transitions() {
    // A fresh environment is Added; the same error again is Unchanged; a
    // different error (None vs Some included) is Changed with the prior
    // value.
    let mut list = fresh_list();
    let e = env("x86_64", Some("5.9.1"));
    assert!(matches!(list.add(&e, None), CppCheckerAddResult::Added));
    assert!(matches!(
        list.add(&e, Some("link error".to_owned())),
        CppCheckerAddResult::Changed { old: None }
    ));
    assert!(matches!(
        list.add(&e, Some("link error".to_owned())),
        CppCheckerAddResult::Unchanged
    ));
    match list.add(&e, None) {
        CppCheckerAddResult::Changed { old } => assert_eq!(old.as_deref(), Some("link error")),
        _ => panic!("expected Changed carrying the prior error"),
    }
    assert_eq!(list.items.len(), 1);
}

#[test]
fn ledger_unique_by_environment() {
    let mut list = fresh_list();
    let e1 = env("x86_64", Some("5.9.1"));
    let e2 = env("aarch64", Some("5.9.1"));
    let e3 = env("x86_64", None);
    assert!(matches!(list.add(&e1, None), CppCheckerAddResult::Added));
    assert!(matches!(list.add(&e2, None), CppCheckerAddResult::Added));
    assert!(matches!(list.add(&e3, None), CppCheckerAddResult::Added));
    assert!(matches!(
        list.add(&e2, Some("missing symbol".to_owned())),
        CppCheckerAddResult::Changed { old: None }
    ));
    assert_eq!(list.items.len(), 3);
    assert!(list.items[0].env.is_same(&e1));
    assert!(list.items[1].env.is_same(&e2));
    assert!(list.items[2].env.is_same(&e3));
    assert_eq!(list.items[1].error.as_deref(), Some("missing symbol"));
}

#[test]
fn unchanged_keeps_error_text() {
    let mut list = fresh_list();
    let e = env("x86_64", None);
    list.add(&e, Some("timeout".to_owned()));
    assert!(matches!(
        list.add(&e, Some("timeout".to_owned())),
        CppCheckerAddResult::Unchanged
    ));
    assert_eq!(list.items[0].error.as_deref(), Some("timeout"));
}
