use sched_priority::{get_priority, set_priority, target_id, Which};

#[test]
fn process_selector_is_the_hosts() {
    assert_eq!(Which::Process.selector(), libc::PRIO_PROCESS as u32);
    assert_eq!(Which::Process.selector(), 0);
}

#[test]
fn group_selector_is_the_hosts() {
    assert_eq!(Which::Group.selector(), libc::PRIO_PGRP as u32);
    assert_eq!(Which::Group.selector(), 1);
}

#[test]
fn user_selector_is_the_hosts() {
    assert_eq!(Which::User.selector(), libc::PRIO_USER as u32);
    assert_eq!(Which::User.selector(), 2);
}

#[test]
fn selectors_differ_pairwise() {
    let kinds = [Which::Process, Which::Group, Which::User];
    for a in kinds {
        for b in kinds {
            assert_eq!(a.selector() == b.selector(), a == b);
        }
    }
}

#[test]
fn target_id_keeps_non_negative_identifiers() {
    assert_eq!(target_id(0), 0);
    assert_eq!(target_id(1), 1);
    assert_eq!(target_id(4242), 4242);
    assert_eq!(target_id(i32::MAX), 2_147_483_647);
}

#[test]
fn target_id_reads_negative_identifiers_as_unsigned() {
    assert_eq!(target_id(-1), 4_294_967_295);
    assert_eq!(target_id(-2), 4_294_967_294);
    assert_eq!(target_id(i32::MIN), 2_147_483_648);
}

#[test]
fn target_id_is_the_hosts_conversion() {
    for who in [0, 1, 77, -1, -77, i32::MAX, i32::MIN] {
        assert_eq!(target_id(who), who as libc::id_t);
    }
}

#[test]
fn set_priority_hands_on_its_arguments() {
    let call = set_priority(Which::Group, 5, 3);
    assert_eq!(call.which, 1);
    assert_eq!(call.who, 5);
    assert_eq!(call.priority, 3);
}

#[test]
fn set_priority_does_not_check_the_range() {
    let call = set_priority(Which::User, 1000, 500);
    assert_eq!((call.which, call.who, call.priority), (2, 1000, 500));
    let call = set_priority(Which::Process, 1, i32::MIN);
    assert_eq!((call.which, call.who, call.priority), (0, 1, i32::MIN));
}

#[test]
fn get_priority_hands_on_its_arguments() {
    let call = get_priority(Which::User, 1000);
    assert_eq!(call.which, 2);
    assert_eq!(call.who, 1000);
    let call = get_priority(Which::Process, -1);
    assert_eq!(call.which, 0);
    assert_eq!(call.who, u32::MAX);
}
