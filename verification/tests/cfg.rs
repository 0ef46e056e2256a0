use build_cfg::{env_cfg, CfgError, CfgPredicate, CfgScalar, CfgSet, CfgStore, CfgTest};

fn pairs_of(raw: &[(&str, &str)]) -> Vec<(String, String)> {
    raw.iter().map(|(k, v)| (k.to_string(), v.to_string())).collect()
}

fn store_with(raw: &[(&str, &str)]) -> CfgStore {
    let mut store = CfgStore::new();
    store.populate(&pairs_of(raw)).unwrap();
    store
}

fn dir(name: &str, value: &'static str) -> CfgPredicate {
    CfgPredicate::directive(name, value).unwrap()
}

fn family(name: &'static str) -> CfgPredicate {
    CfgPredicate::family_shortcut(name).unwrap()
}

fn check(store: &CfgStore, p: CfgPredicate) -> bool {
    p.test(store).unwrap()
}

#[test]
fn test_state_uninit() {
    let store = CfgStore::new();
    assert!(matches!(env_cfg(&store), Err(CfgError::StoreNotInitialized)));
    assert!(matches!(
        dir("target_os", "windows").test(&store),
        Err(CfgError::StoreNotInitialized)
    ));
}

#[test]
fn test_state_empty() {
    let mut store = CfgStore::new();
    let r = store.populate(&pairs_of(&[("PATH", "/usr/bin"), ("HOME", "/root")]));
    assert!(matches!(r, Err(CfgError::UninitializedEnvironment)));
    assert!(matches!(env_cfg(&store), Err(CfgError::StoreNotInitialized)));
}

#[test]
fn test_state() {
    let mut store = CfgStore::new();
    store
        .populate(&pairs_of(&[("CARGO_CFG_TARGET_OS", "windows")]))
        .unwrap();
    assert!(env_cfg(&store).is_ok());
}

fn basic_checks(store: &CfgStore) {
    assert!(check(
        store,
        CfgPredicate::All(vec![dir("target_os", "windows"), dir("target_pointer_width", "64")])
    ));
    assert!(!check(
        store,
        CfgPredicate::Not(Box::new(CfgPredicate::All(vec![
            dir("target_os", "windows"),
            dir("target_pointer_width", "64"),
        ])))
    ));
    assert!(!check(
        store,
        CfgPredicate::All(vec![dir("target_os", "windows"), dir("target_pointer_width", "32")])
    ));
    assert!(check(
        store,
        CfgPredicate::Any(vec![dir("target_os", "windows"), dir("target_pointer_width", "32")])
    ));
    assert!(check(
        store,
        CfgPredicate::Any(vec![dir("target_os", "windows"), dir("target_pointer_width", "64")])
    ));
    assert!(check(
        store,
        CfgPredicate::Any(vec![dir("target_os", "linux"), dir("target_pointer_width", "64")])
    ));
    assert!(!check(
        store,
        CfgPredicate::All(vec![dir("target_os", "linux"), dir("target_pointer_width", "64")])
    ));
    assert!(check(store, dir("target_os", "windows")));
    assert!(!check(store, dir("target_os", "linux")));
}

#[test]
fn test_basic() {
    let store = store_with(&[
        ("CARGO_CFG_TARGET_OS", "windows"),
        ("CARGO_CFG_TARGET_POINTER_WIDTH", "64"),
    ]);
    basic_checks(&store);
}

fn set_checks(store: &CfgStore) {
    assert!(check(store, dir("target_feature", "mmx")));
    assert!(check(store, dir("target_feature", "sse")));
    assert!(!check(store, CfgPredicate::Not(Box::new(dir("target_feature", "mmx")))));
    assert!(!check(store, CfgPredicate::Not(Box::new(dir("target_feature", "sse")))));
    assert!(check(
        store,
        CfgPredicate::Any(vec![dir("target_feature", "mmx"), dir("target_feature", "sse")])
    ));
    assert!(!check(
        store,
        CfgPredicate::Not(Box::new(CfgPredicate::Any(vec![
            dir("target_feature", "mmx"),
            dir("target_feature", "sse"),
        ])))
    ));
    assert!(check(
        store,
        CfgPredicate::All(vec![dir("target_feature", "mmx"), dir("target_feature", "sse")])
    ));
    assert!(!check(
        store,
        CfgPredicate::All(vec![
            dir("target_feature", "mmx"),
            dir("target_feature", "sse"),
            dir("target_feature", "lol"),
        ])
    ));
    assert!(!check(store, dir("target_feature", "lol")));
}

#[test]
fn test_set() {
    let store = store_with(&[("CARGO_CFG_TARGET_FEATURE", "mmx,sse")]);
    set_checks(&store);
}

#[test]
fn test_mixed() {
    let store = store_with(&[
        ("CARGO_CFG_TARGET_OS", "windows"),
        ("CARGO_CFG_TARGET_POINTER_WIDTH", "64"),
        ("CARGO_CFG_TARGET_FEATURE", "mmx,sse"),
    ]);
    basic_checks(&store);
    set_checks(&store);
}

#[test]
fn test_target_family_shortcut() {
    let mut store = CfgStore::new();

    store
        .populate(&pairs_of(&[("CARGO_CFG_TARGET_FAMILY", "unix")]))
        .unwrap();
    assert!(check(&store, dir("target_family", "unix")));
    assert!(!check(&store, dir("target_family", "windows")));
    assert!(!check(&store, dir("target_family", "wasm")));
    assert!(check(&store, family("unix")));
    assert!(!check(&store, family("windows")));
    assert!(!check(&store, family("wasm")));

    store
        .populate(&pairs_of(&[("CARGO_CFG_TARGET_FAMILY", "windows")]))
        .unwrap();
    assert!(!check(&store, dir("target_family", "unix")));
    assert!(check(&store, dir("target_family", "windows")));
    assert!(!check(&store, dir("target_family", "wasm")));
    assert!(!check(&store, family("unix")));
    assert!(check(&store, family("windows")));
    assert!(!check(&store, family("wasm")));

    store
        .populate(&pairs_of(&[("CARGO_CFG_TARGET_FAMILY", "wasm")]))
        .unwrap();
    assert!(!check(&store, dir("target_family", "unix")));
    assert!(!check(&store, dir("target_family", "windows")));
    assert!(check(&store, dir("target_family", "wasm")));
    assert!(!check(&store, family("unix")));
    assert!(!check(&store, family("windows")));
    assert!(check(&store, family("wasm")));
}

#[test]
fn scalar_overwrites_within_one_population() {
    let store = store_with(&[
        ("CARGO_CFG_TARGET_OS", "linux"),
        ("CARGO_CFG_TARGET_OS", "windows"),
    ]);
    assert!(check(&store, dir("target_os", "windows")));
    assert!(!check(&store, dir("target_os", "linux")));
}

#[test]
fn set_duplicates_collapse() {
    let a = store_with(&[("CARGO_CFG_TARGET_FEATURE", "a,a,b")]);
    let b = store_with(&[("CARGO_CFG_TARGET_FEATURE", "a,b")]);
    for store in [&a, &b] {
        assert!(check(store, dir("target_feature", "a")));
        assert!(check(store, dir("target_feature", "b")));
        assert!(!check(store, dir("target_feature", "c")));
    }
}

#[test]
fn empty_connectives() {
    let store = store_with(&[("CARGO_CFG_TARGET_OS", "windows")]);
    assert!(check(&store, CfgPredicate::All(vec![])));
    assert!(!check(&store, CfgPredicate::Any(vec![])));
}

#[test]
fn double_negation() {
    let store = store_with(&[("CARGO_CFG_TARGET_OS", "windows")]);
    for (name, value) in [("target_os", "windows"), ("target_os", "linux")] {
        let plain = check(&store, dir(name, value));
        let doubled = check(
            &store,
            CfgPredicate::Not(Box::new(CfgPredicate::Not(Box::new(dir(name, value))))),
        );
        assert_eq!(plain, doubled);
    }
}

#[test]
fn de_morgan() {
    let store = store_with(&[
        ("CARGO_CFG_TARGET_OS", "windows"),
        ("CARGO_CFG_TARGET_POINTER_WIDTH", "64"),
    ]);
    let cases: [(&str, &'static str, &str, &'static str); 3] = [
        ("target_os", "windows", "target_pointer_width", "64"),
        ("target_os", "windows", "target_pointer_width", "32"),
        ("target_os", "linux", "target_pointer_width", "32"),
    ];
    for (n1, v1, n2, v2) in cases {
        let not_all = check(
            &store,
            CfgPredicate::Not(Box::new(CfgPredicate::All(vec![dir(n1, v1), dir(n2, v2)]))),
        );
        let any_not = check(
            &store,
            CfgPredicate::Any(vec![
                CfgPredicate::Not(Box::new(dir(n1, v1))),
                CfgPredicate::Not(Box::new(dir(n2, v2))),
            ]),
        );
        assert_eq!(not_all, any_not);
    }
}

#[test]
fn repopulation_replaces_prior_state() {
    let mut store = CfgStore::new();
    store
        .populate(&pairs_of(&[
            ("CARGO_CFG_TARGET_OS", "windows"),
            ("CARGO_CFG_TARGET_FAMILY", "windows"),
            ("CARGO_CFG_TARGET_FEATURE", "sse"),
        ]))
        .unwrap();
    assert!(check(&store, dir("target_os", "windows")));
    assert!(check(&store, dir("target_family", "windows")));
    assert!(check(&store, dir("target_feature", "sse")));

    store
        .populate(&pairs_of(&[("CARGO_CFG_TARGET_ENV", "gnu")]))
        .unwrap();
    assert!(check(&store, dir("target_env", "gnu")));
    // The scalar reverts to its empty default, the optional scalar to
    // absent, the set to empty.
    assert!(!check(&store, dir("target_os", "windows")));
    assert!(check(&store, dir("target_os", "")));
    assert!(!check(&store, dir("target_family", "windows")));
    assert!(!check(&store, dir("target_family", "")));
    assert!(!check(&store, dir("target_feature", "sse")));
}

#[test]
fn failed_population_keeps_prior_state() {
    let mut store = CfgStore::new();
    store
        .populate(&pairs_of(&[("CARGO_CFG_TARGET_OS", "windows")]))
        .unwrap();
    let r = store.populate(&pairs_of(&[("UNRELATED", "x")]));
    assert!(matches!(r, Err(CfgError::UninitializedEnvironment)));
    assert!(check(&store, dir("target_os", "windows")));
}

#[test]
fn unknown_directive_is_rejected() {
    match CfgPredicate::directive("target_oops", "x") {
        Err(CfgError::UnknownDirective(name)) => assert_eq!(name, "target_oops"),
        r => panic!("expected UnknownDirective, got {:?}", r),
    }
    match CfgPredicate::family_shortcut("macos") {
        Err(CfgError::UnknownDirective(name)) => assert_eq!(name, "macos"),
        r => panic!("expected UnknownDirective, got {:?}", r),
    }
}

#[test]
fn key_matching_is_case_insensitive() {
    for key in ["CARGO_CFG_TARGET_OS", "cargo_cfg_target_os", "Cargo_Cfg_Target_Os"] {
        let store = store_with(&[(key, "windows")]);
        assert!(check(&store, dir("target_os", "windows")));
    }
}

#[test]
fn values_are_case_sensitive() {
    let store = store_with(&[("CARGO_CFG_TARGET_OS", "Windows")]);
    assert!(!check(&store, dir("target_os", "windows")));
    assert!(check(&store, dir("target_os", "Windows")));
}

#[test]
fn empty_values_are_ignored() {
    let mut store = CfgStore::new();
    let r = store.populate(&pairs_of(&[("CARGO_CFG_TARGET_OS", "")]));
    assert!(matches!(r, Err(CfgError::UninitializedEnvironment)));

    let store = store_with(&[
        ("CARGO_CFG_TARGET_OS", ""),
        ("CARGO_CFG_TARGET_ENV", "gnu"),
    ]);
    assert!(!check(&store, dir("target_os", "windows")));
    assert!(check(&store, dir("target_os", "")));
}

#[test]
fn feature_flags_fill_the_feature_set() {
    let store = store_with(&[("CARGO_FEATURE_SERDE", "1"), ("CARGO_FEATURE_Extra_IO", "1")]);
    let cfg = env_cfg(&store).unwrap();
    assert!(cfg.feature.test("serde"));
    assert!(cfg.feature.test("extra_io"));
    assert!(!cfg.feature.test("SERDE"));
    assert!(!cfg.feature.test("other"));
}

#[test]
fn has_atomic_is_a_set_dimension() {
    let store = store_with(&[("CARGO_CFG_TARGET_HAS_ATOMIC", "8,16,32,64,ptr")]);
    assert!(check(&store, dir("target_has_atomic", "64")));
    assert!(check(&store, dir("target_has_atomic", "ptr")));
    assert!(!check(&store, dir("target_has_atomic", "128")));
}

#[test]
fn reset_forgets_the_snapshot() {
    let mut store = store_with(&[("CARGO_CFG_TARGET_OS", "windows")]);
    assert!(env_cfg(&store).is_ok());
    store.reset();
    assert!(matches!(env_cfg(&store), Err(CfgError::StoreNotInitialized)));
}

#[test]
fn slots_merge_and_test() {
    let mut scalar = CfgScalar::default();
    assert!(scalar.test(""));
    scalar.put("64".to_string());
    assert!(scalar.test("64"));
    assert!(!scalar.test("32"));
    scalar.put("32".to_string());
    assert!(scalar.test("32"));

    let mut optional: Option<CfgScalar> = None;
    assert!(!optional.test("unix"));
    optional.put("unix".to_string());
    assert!(optional.test("unix"));
    assert!(!optional.test("windows"));

    let mut set = CfgSet::default();
    assert!(!set.test("a"));
    set.put("a,b".to_string());
    set.put("b,c".to_string());
    assert!(set.test("a"));
    assert!(set.test("b"));
    assert!(set.test("c"));
    assert!(!set.test("d"));
}
