use tiny_dfr::watch::ConfigManager;

#[test]
fn construction_records_the_arm_results() {
    let cm = ConfigManager::new(Some(1), None);
    assert!(!cm.needs_arm_etc());
    assert!(cm.needs_arm_user());

    let cm = ConfigManager::new(None, None);
    assert!(cm.needs_arm_etc());
    assert!(cm.needs_arm_user());
}

#[test]
fn events_on_tracked_watches_demand_a_reload() {
    let cm = ConfigManager::new(Some(1), Some(2));
    assert!(cm.update_config(&vec![1]));
    assert!(cm.update_config(&vec![2]));
    assert!(cm.update_config(&vec![9, 2]));
}

#[test]
fn unrelated_events_produce_no_reload() {
    let cm = ConfigManager::new(Some(1), Some(2));
    assert!(!cm.update_config(&vec![9]));
    assert!(!cm.update_config(&vec![3, 4, 5]));
    assert!(!cm.update_config(&Vec::new()));
}

#[test]
fn nothing_is_tracked_while_unarmed() {
    let cm = ConfigManager::new(None, None);
    assert!(!cm.update_config(&vec![1, 2, 3]));
}

#[test]
fn watches_are_armed_again_after_a_fire_and_reload() {
    let mut cm = ConfigManager::new(Some(1), None);
    // the user path becomes known later; arming it ends this poll cycle
    assert!(cm.needs_arm_user());
    cm.set_user_watch(Some(2));
    assert!(!cm.needs_arm_user());

    // a fire on the system watch demands a reload; both one-shot
    // watches are then re-armed with fresh descriptors
    assert!(cm.update_config(&vec![1]));
    cm.set_etc_watch(Some(3));
    cm.set_user_watch(Some(4));
    assert!(!cm.needs_arm_etc());
    assert!(!cm.needs_arm_user());

    // a touch of an unwatched path produces no reload
    assert!(!cm.update_config(&vec![7]));
    // the fresh descriptors are live
    assert!(cm.update_config(&vec![4]));
}
