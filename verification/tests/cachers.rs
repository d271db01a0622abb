use ruuvi::cacher;
use ruuvi::util;

#[test]
fn util_cacher_rejects_empty_target_list() {
    let err = util::Cacher::new(&Vec::new()).unwrap_err();
    assert_eq!(err, "Must have 1 or more mac addresses");
}

#[test]
fn util_cacher_sees_each_target_once() {
    let targets = vec![
        "AA:BB".to_string(),
        "CC:DD".to_string(),
        "AA:BB".to_string(),
    ];
    let mut cacher = util::Cacher::new(&targets).unwrap();
    assert!(!cacher.all_seen());
    assert!(cacher.see(&"AA:BB".to_string()));
    assert!(!cacher.see(&"AA:BB".to_string()));
    assert!(!cacher.see(&"EE:FF".to_string()));
    assert!(!cacher.all_seen());
    assert!(cacher.see(&"CC:DD".to_string()));
    assert!(cacher.all_seen());
}

#[test]
fn optional_cacher_without_targets_filters_nothing() {
    let mut cacher = cacher::Cacher::from(None);
    assert!(!cacher.has_cached(&"AA:BB".to_string()));
    assert!(!cacher.has_cached(&"AA:BB".to_string()));
    assert!(!cacher.is_done());
}

#[test]
fn optional_cacher_reports_repeats_as_cached() {
    let targets = vec!["AA:BB".to_string(), "CC:DD".to_string()];
    let mut cacher = cacher::Cacher::from(Some(targets));
    assert!(!cacher.has_cached(&"AA:BB".to_string()));
    assert!(cacher.has_cached(&"AA:BB".to_string()));
    assert!(cacher.has_cached(&"EE:FF".to_string()));
    assert!(!cacher.is_done());
    assert!(!cacher.has_cached(&"CC:DD".to_string()));
    assert!(cacher.is_done());
}
