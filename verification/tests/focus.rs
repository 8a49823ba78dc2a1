use reson::focus::SelectedTab;

#[test]
fn five_tab_presses_return_to_no_focus() {
    let start = SelectedTab::Unfocused;
    let first = start.next();
    assert_eq!(first, SelectedTab::Cpu);
    let second = first.next();
    assert_eq!(second, SelectedTab::Processes);
    let third = second.next();
    assert_eq!(third, SelectedTab::Disks);
    let fourth = third.next();
    assert_eq!(fourth, SelectedTab::Networks);
    let fifth = fourth.next();
    assert_eq!(fifth, SelectedTab::Unfocused);
}

#[test]
fn shift_tab_walks_the_ring_backward() {
    assert_eq!(SelectedTab::Unfocused.prev(), SelectedTab::Networks);
    assert_eq!(SelectedTab::Networks.prev(), SelectedTab::Disks);
    assert_eq!(SelectedTab::Disks.prev(), SelectedTab::Processes);
    assert_eq!(SelectedTab::Processes.prev(), SelectedTab::Cpu);
    assert_eq!(SelectedTab::Cpu.prev(), SelectedTab::Unfocused);
}

#[test]
fn next_and_prev_undo_each_other_on_every_tab() {
    let tabs = [
        SelectedTab::Cpu,
        SelectedTab::Processes,
        SelectedTab::Disks,
        SelectedTab::Networks,
        SelectedTab::Unfocused,
    ];
    for tab in tabs {
        assert_eq!(tab.next().prev(), tab);
        assert_eq!(tab.prev().next(), tab);
        assert_eq!(tab.next().next().next().next().next(), tab);
        assert_ne!(tab.next(), tab);
        assert_ne!(tab.next().next(), tab);
    }
}

#[test]
fn each_tab_answers_to_its_own_question_only() {
    assert!(SelectedTab::Cpu.is_cpu());
    assert!(!SelectedTab::Cpu.is_processes());
    assert!(!SelectedTab::Cpu.is_disks());
    assert!(!SelectedTab::Cpu.is_network());
    assert!(SelectedTab::Processes.is_processes());
    assert!(!SelectedTab::Processes.is_cpu());
    assert!(SelectedTab::Disks.is_disks());
    assert!(!SelectedTab::Disks.is_network());
    assert!(SelectedTab::Networks.is_network());
    assert!(!SelectedTab::Networks.is_disks());
    assert!(!SelectedTab::Unfocused.is_cpu());
    assert!(!SelectedTab::Unfocused.is_processes());
    assert!(!SelectedTab::Unfocused.is_disks());
    assert!(!SelectedTab::Unfocused.is_network());
}

#[test]
fn the_focus_starts_on_no_panel() {
    assert_eq!(SelectedTab::default(), SelectedTab::Unfocused);
}
