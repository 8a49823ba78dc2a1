use reson::disk::{are_consistent, create_disks_widget, DiskInfo};
use reson::layout::get_highlight_style;

const GIB: u64 = 1024 * 1024 * 1024;

fn disk(name: &str, total: u64, available: u64) -> DiskInfo {
    let used = total - available;
    DiskInfo {
        name: String::from(name),
        total_space: total,
        available_space: available,
        used_percent: (used as f64 / total as f64 * 100.0) as u64,
        free_percent: (available as f64 / total as f64 * 100.0) as u64,
    }
}

fn line(n: usize, d: &DiskInfo) -> String {
    format!(
        "{}. {} [Free: {}%({} GB), Used: {}%({} GB), Total: {} GB]",
        n,
        d.name,
        d.free_percent,
        d.available_space / 1024 / 1024 / 1024,
        d.used_percent,
        (d.total_space - d.available_space) / 1024 / 1024 / 1024,
        d.total_space / 1024 / 1024 / 1024
    )
}

#[test]
fn the_fullest_disk_comes_first() {
    let disks = vec![
        disk("/dev/sda1", 100 * GIB, 90 * GIB),
        disk("/dev/sdb1", 500 * GIB, 100 * GIB),
        disk("/dev/sdc1", 50 * GIB, 5 * GIB),
    ];
    let widget = create_disks_widget(&disks, 10, 0, false);
    let expected = [line(1, &disks[1]), line(2, &disks[2]), line(3, &disks[0])].join("\n");
    assert_eq!(widget.chart.text, expected);
    assert_eq!(widget.chart.title, "Disk Usage");
    assert_eq!(widget.chart.highlight, get_highlight_style(false));
}

#[test]
fn a_line_names_free_and_used_space_and_the_size() {
    let disks = vec![disk("nvme0n1p2", 512 * GIB + 300, 128 * GIB + 7)];
    let widget = create_disks_widget(&disks, 10, 0, true);
    assert_eq!(
        widget.chart.text,
        "1. nvme0n1p2 [Free: 24%(128 GB), Used: 75%(384 GB), Total: 512 GB]"
    );
    assert_eq!(widget.chart.highlight, get_highlight_style(true));
}

#[test]
fn disks_that_are_equally_full_keep_their_order() {
    let disks = vec![
        disk("first", 10 * GIB, 4 * GIB),
        disk("second", 20 * GIB, 14 * GIB),
        disk("third", 6 * GIB, 0),
        disk("fourth", 90 * GIB, 1 * GIB),
    ];
    let widget = create_disks_widget(&disks, 3, 0, false);
    let names: Vec<&str> = widget
        .chart
        .text
        .lines()
        .map(|text| text.split(' ').nth(1).unwrap())
        .collect();
    assert_eq!(names, ["fourth", "first", "second", "third"]);
}

#[test]
fn the_lines_that_do_not_fit_in_the_border_can_be_scrolled() {
    let disks = vec![
        disk("a", 10 * GIB, 4 * GIB),
        disk("b", 20 * GIB, 14 * GIB),
        disk("c", 6 * GIB, 0),
        disk("d", 90 * GIB, 1 * GIB),
    ];
    assert_eq!(create_disks_widget(&disks, 4, 0, false).max_scroll, 2);
    assert_eq!(create_disks_widget(&disks, 6, 0, false).max_scroll, 0);
    assert_eq!(create_disks_widget(&disks, 2, 0, false).max_scroll, 4);
    assert_eq!(create_disks_widget(&disks, 50, 0, false).max_scroll, 0);
}

#[test]
fn the_panel_holds_all_lines_and_the_scroll_offset() {
    let disks = vec![disk("a", 10 * GIB, 4 * GIB), disk("b", 20 * GIB, 14 * GIB)];
    let widget = create_disks_widget(&disks, 3, 1, false);
    assert_eq!(widget.chart.scroll, 1);
    assert_eq!(widget.chart.text.lines().count(), 2);
    let widget = create_disks_widget(&disks, 3, 65536 + 7, false);
    assert_eq!(widget.chart.scroll, 7);
    let widget = create_disks_widget(&disks, 3, 65535, false);
    assert_eq!(widget.chart.scroll, 65535);
}

#[test]
fn no_disks_give_an_empty_panel() {
    let widget = create_disks_widget(&Vec::new(), 8, 0, false);
    assert_eq!(widget.chart.text, "");
    assert_eq!(widget.max_scroll, 0);
}

#[test]
fn a_disk_with_more_free_space_than_space_is_found() {
    let good = disk("a", 10 * GIB, 4 * GIB);
    let mut bad = disk("b", 10 * GIB, 4 * GIB);
    bad.available_space = 11 * GIB;
    assert!(are_consistent(&vec![good.clone()]));
    assert!(are_consistent(&Vec::new()));
    assert!(!are_consistent(&vec![good.clone(), bad.clone()]));
    assert!(!are_consistent(&vec![bad, good]));
}

#[test]
fn a_disk_panel_lower_than_its_border_is_built_with_all_lines_to_scroll() {
    let disks = vec![disk("a", 10 * GIB, 4 * GIB), disk("b", 20 * GIB, 14 * GIB)];
    for height in [0, 1, 2] {
        let widget = create_disks_widget(&disks, height, 0, false);
        assert_eq!(widget.max_scroll, 2);
        assert_eq!(widget.chart.text.lines().count(), 2);
    }
    assert_eq!(create_disks_widget(&disks, 3, 0, false).max_scroll, 1);
}
