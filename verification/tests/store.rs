use yatco::args::ArgMap;
use yatco::config::Presets;

#[test]
fn test_add_then_list_keeps_order() {
    let mut store = Presets::new();
    let chain = vec!["json_unescape".to_string(), "pretty_json".to_string()];
    store.add_preset("clean", chain.clone(), None);
    let listed = store.get_presets();
    assert_eq!(listed.len(), 1);
    assert_eq!(listed[0].0, "clean");
    assert_eq!(listed[0].1, chain);
    assert!(listed[0].2.is_none());
}

#[test]
fn test_add_preset_keeps_args() {
    let mut store = Presets::new();
    let mut args = ArgMap::new();
    args.insert("py_script".to_string(), "clean.py".to_string());
    store.add_preset("scripted", vec!["custom_py".to_string()], Some(args));
    let listed = store.get_presets();
    assert_eq!(listed.len(), 1);
    let kept = listed[0].2.as_ref().unwrap();
    assert_eq!(kept.get("py_script").unwrap(), "clean.py");
}

#[test]
fn test_delete_removes_all_of_name() {
    let mut store = Presets::new();
    store.add_preset("dup", vec!["pretty_json".to_string()], None);
    store.add_preset("keep", vec![], None);
    store.add_preset("dup", vec!["json_unescape".to_string()], None);
    store.delete_preset("dup");
    let listed = store.get_presets();
    assert_eq!(listed.len(), 1);
    assert_eq!(listed[0].0, "keep");
    let found = store.get_preset_by_name("dup");
    assert_eq!(found.0, "");
    assert!(found.1.is_empty());
    assert!(found.2.is_none());
}

#[test]
fn test_find_by_name_returns_first_match() {
    let mut store = Presets::new();
    store.add_preset("p", vec!["pretty_json".to_string()], None);
    store.add_preset("p", vec!["json_unescape".to_string()], None);
    let found = store.get_preset_by_name("p");
    assert_eq!(found.1, vec!["pretty_json".to_string()]);
}

#[test]
fn test_unknown_name_yields_empty_fallback() {
    let store = Presets::new();
    let found = store.get_preset_by_name("missing");
    assert_eq!(found.0, "");
    assert!(found.1.is_empty());
    assert!(found.2.is_none());
}

#[test]
fn test_argmap_later_entry_wins() {
    let mut args = ArgMap::new();
    args.insert("k".to_string(), "old".to_string());
    args.insert("k".to_string(), "new".to_string());
    assert_eq!(args.get("k").unwrap(), "new");
    assert!(args.get("absent").is_none());
    let entries = args.entry_list();
    assert_eq!(entries.len(), 2);
}
