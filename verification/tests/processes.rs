use reson::layout::get_highlight_style;
use reson::processes::{
    create_processes_table, display_order, is_column_before, is_process_before, table_in_order,
    toggle_sort, ProcessColumn, ProcessInfo, SortDirection,
};

fn process(
    user: Option<&str>,
    pid: u32,
    parent: Option<u32>,
    cpu_rank: u32,
    memory: u64,
    run_time: u64,
    load_rank: u64,
    name: &str,
) -> ProcessInfo {
    ProcessInfo {
        user: user.map(String::from),
        pid,
        parent,
        cpu_rank,
        cpu_text: format!("{}.0", cpu_rank),
        memory,
        run_time,
        load_rank,
        name: String::from(name),
    }
}

fn sample() -> Vec<ProcessInfo> {
    vec![
        process(Some("root"), 1, None, 0, 9 << 20, 100, 5, "init"),
        process(Some("alice"), 420, Some(1), 30, 512 << 20, 250, 90, "firefox"),
        process(None, 77, Some(1), 5, 20 << 20, 180, 12, "cron"),
        process(Some("bob"), 300, Some(77), 30, 64 << 20, 200, 40, "bash"),
        process(Some("alice"), 99, Some(300), 12, 512 << 20, 400, 90, "vim"),
    ]
}

fn names(processes: &[ProcessInfo], order: &[usize]) -> Vec<String> {
    order.iter().map(|&i| processes[i].name.clone()).collect()
}

#[test]
fn asking_for_a_column_three_times_goes_round() {
    let first = toggle_sort(None, ProcessColumn::CPU);
    assert_eq!(first, Some((ProcessColumn::CPU, SortDirection::Ascending)));
    let second = toggle_sort(first, ProcessColumn::CPU);
    assert_eq!(second, Some((ProcessColumn::CPU, SortDirection::Descending)));
    let third = toggle_sort(second, ProcessColumn::CPU);
    assert_eq!(third, None);
    let fourth = toggle_sort(third, ProcessColumn::PID);
    assert_eq!(fourth, Some((ProcessColumn::PID, SortDirection::Ascending)));
}

#[test]
fn asking_for_another_column_starts_ascending_again() {
    let memory_down = Some((ProcessColumn::Memory, SortDirection::Descending));
    assert_eq!(
        toggle_sort(memory_down, ProcessColumn::User),
        Some((ProcessColumn::User, SortDirection::Ascending))
    );
    let memory_up = Some((ProcessColumn::Memory, SortDirection::Ascending));
    assert_eq!(
        toggle_sort(memory_up, ProcessColumn::Time),
        Some((ProcessColumn::Time, SortDirection::Ascending))
    );
}

#[test]
fn every_column_goes_through_the_same_three_states() {
    let columns = [
        ProcessColumn::User,
        ProcessColumn::PID,
        ProcessColumn::PPID,
        ProcessColumn::CPU,
        ProcessColumn::Memory,
        ProcessColumn::Time,
        ProcessColumn::Command,
    ];
    for column in columns {
        let up = toggle_sort(None, column);
        assert_eq!(up, Some((column, SortDirection::Ascending)));
        let down = toggle_sort(up, column);
        assert_eq!(down, Some((column, SortDirection::Descending)));
        assert_eq!(toggle_sort(down, column), None);
    }
}

#[test]
fn without_a_sort_column_the_heaviest_process_comes_first() {
    let processes = sample();
    let order = display_order(&processes, None);
    assert_eq!(order, vec![1, 4, 3, 2, 0]);
    assert_eq!(names(&processes, &order), ["firefox", "vim", "bash", "cron", "init"]);
}

#[test]
fn each_column_orders_by_its_own_key() {
    let processes = sample();
    let up = SortDirection::Ascending;
    let order = display_order(&processes, Some((ProcessColumn::PID, up)));
    assert_eq!(order, vec![0, 2, 4, 3, 1]);
    let order = display_order(&processes, Some((ProcessColumn::PPID, up)));
    assert_eq!(order, vec![0, 1, 2, 3, 4]);
    let order = display_order(&processes, Some((ProcessColumn::CPU, up)));
    assert_eq!(order, vec![0, 2, 4, 1, 3]);
    let order = display_order(&processes, Some((ProcessColumn::Memory, up)));
    assert_eq!(order, vec![0, 2, 3, 1, 4]);
    let order = display_order(&processes, Some((ProcessColumn::Time, up)));
    assert_eq!(order, vec![0, 2, 3, 1, 4]);
    let order = display_order(&processes, Some((ProcessColumn::Command, up)));
    assert_eq!(names(&processes, &order), ["bash", "cron", "firefox", "init", "vim"]);
    let order = display_order(&processes, Some((ProcessColumn::User, up)));
    assert_eq!(order, vec![1, 4, 3, 0, 2]);
}

#[test]
fn descending_turns_the_order_round_but_not_the_ties() {
    let processes = sample();
    let down = SortDirection::Descending;
    let order = display_order(&processes, Some((ProcessColumn::PID, down)));
    assert_eq!(order, vec![1, 3, 4, 2, 0]);
    let order = display_order(&processes, Some((ProcessColumn::CPU, down)));
    assert_eq!(order, vec![1, 3, 4, 2, 0]);
    let order = display_order(&processes, Some((ProcessColumn::Memory, down)));
    assert_eq!(order, vec![1, 4, 3, 2, 0]);
    let order = display_order(&processes, Some((ProcessColumn::User, down)));
    assert_eq!(order, vec![2, 0, 3, 1, 4]);
}

#[test]
fn the_order_is_that_of_a_stable_sort() {
    let mut processes = Vec::new();
    let mut seed: u64 = 17;
    for pid in 0..60u32 {
        seed = seed.wrapping_mul(6364136223846793005).wrapping_add(1442695040888963407);
        let key = (seed >> 33) % 7;
        let user = ["root", "alice", "bob", "", "Zed"][((seed >> 40) % 5) as usize];
        processes.push(process(
            if key == 3 { None } else { Some(user) },
            (seed >> 20) as u32 % 50,
            if key == 0 { None } else { Some(key as u32) },
            key as u32,
            key * 1000,
            (seed >> 50) % 9,
            (seed >> 45) % 6,
            ["sh", "bash", "zsh", "vim", "top", "a", "ab"][(pid % 7) as usize],
        ));
    }
    let columns = [
        ProcessColumn::User,
        ProcessColumn::PID,
        ProcessColumn::PPID,
        ProcessColumn::CPU,
        ProcessColumn::Memory,
        ProcessColumn::Time,
        ProcessColumn::Command,
    ];
    let user = |p: &ProcessInfo| p.user.clone().unwrap_or_else(|| String::from("unknown"));
    for column in columns {
        for direction in [SortDirection::Ascending, SortDirection::Descending] {
            let mut expected: Vec<usize> = (0..processes.len()).collect();
            expected.sort_by(|&i, &j| {
                let (a, b) = (&processes[i], &processes[j]);
                let (a, b) = match direction {
                    SortDirection::Ascending => (a, b),
                    SortDirection::Descending => (b, a),
                };
                match column {
                    ProcessColumn::User => user(a).cmp(&user(b)),
                    ProcessColumn::PID => a.pid.cmp(&b.pid),
                    ProcessColumn::PPID => a.parent.cmp(&b.parent),
                    ProcessColumn::CPU => a.cpu_rank.cmp(&b.cpu_rank),
                    ProcessColumn::Memory => a.memory.cmp(&b.memory),
                    ProcessColumn::Time => a.run_time.cmp(&b.run_time),
                    ProcessColumn::Command => a.name.cmp(&b.name),
                }
            });
            assert_eq!(display_order(&processes, Some((column, direction))), expected);
        }
    }
    let mut expected: Vec<usize> = (0..processes.len()).collect();
    expected.sort_by(|&i, &j| processes[j].load_rank.cmp(&processes[i].load_rank));
    assert_eq!(display_order(&processes, None), expected);
}

#[test]
fn no_processes_have_an_empty_order() {
    assert_eq!(display_order(&Vec::new(), None), Vec::<usize>::new());
}

#[test]
fn a_process_without_a_parent_comes_before_every_process_with_one() {
    let orphan = process(Some("root"), 1, None, 0, 0, 0, 0, "init");
    let child = process(Some("root"), 2, Some(0), 0, 0, 0, 0, "kthreadd");
    assert!(is_column_before(&orphan, &child, ProcessColumn::PPID));
    assert!(!is_column_before(&child, &orphan, ProcessColumn::PPID));
    assert!(!is_column_before(&orphan, &orphan, ProcessColumn::PPID));
}

#[test]
fn an_unknown_owner_is_ordered_by_the_word_unknown() {
    let nobody = process(None, 1, None, 0, 0, 0, 0, "a");
    let tom = process(Some("tom"), 2, None, 0, 0, 0, 0, "b");
    let zed = process(Some("zed"), 3, None, 0, 0, 0, 0, "c");
    assert!(is_column_before(&tom, &nobody, ProcessColumn::User));
    assert!(is_column_before(&nobody, &zed, ProcessColumn::User));
    let up = Some((ProcessColumn::User, SortDirection::Ascending));
    let down = Some((ProcessColumn::User, SortDirection::Descending));
    assert!(is_process_before(&tom, &nobody, up));
    assert!(is_process_before(&nobody, &tom, down));
    assert!(!is_process_before(&nobody, &nobody, up));
}

#[test]
fn the_time_column_orders_by_the_running_time_that_it_shows() {
    let long = process(Some("a"), 1, None, 0, 0, 7322, 0, "long");
    let short = process(Some("a"), 2, None, 0, 0, 59, 0, "short");
    let processes = vec![long, short];
    let table = create_processes_table(
        &processes,
        10,
        0,
        false,
        Some((ProcessColumn::Time, SortDirection::Ascending)),
    );
    assert_eq!(table.chart.rows[0][6], "short");
    assert_eq!(table.chart.rows[0][5], "00:00:59");
    assert_eq!(table.chart.rows[1][6], "long");
    assert_eq!(table.chart.rows[1][5], "02:02:02");
    assert_eq!(table.chart.header[5], "Time\u{2191}");
    let table = create_processes_table(
        &processes,
        10,
        0,
        false,
        Some((ProcessColumn::Time, SortDirection::Descending)),
    );
    assert_eq!(table.chart.rows[0][5], "02:02:02");
    assert_eq!(table.chart.rows[1][5], "00:00:59");
    assert_eq!(table.chart.header[5], "Time\u{2193}");
}

#[test]
fn of_two_processes_the_one_that_ran_for_less_comes_first_in_ascending_time() {
    let fifty = process(Some("a"), 1, None, 0, 0, 50, 0, "fifty");
    let thirty = process(Some("a"), 2, None, 0, 0, 30, 0, "thirty");
    assert!(is_column_before(&thirty, &fifty, ProcessColumn::Time));
    assert!(!is_column_before(&fifty, &thirty, ProcessColumn::Time));
    assert!(!is_column_before(&fifty, &fifty, ProcessColumn::Time));
    let processes = vec![fifty, thirty];
    let up = Some((ProcessColumn::Time, SortDirection::Ascending));
    let down = Some((ProcessColumn::Time, SortDirection::Descending));
    assert_eq!(display_order(&processes, up), vec![1, 0]);
    assert_eq!(display_order(&processes, down), vec![0, 1]);
}

#[test]
fn a_row_has_the_seven_cells_of_its_process() {
    let processes = sample();
    let table = create_processes_table(&processes, 12, 0, true, None);
    assert_eq!(table.chart.rows.len(), 5);
    assert_eq!(
        table.chart.rows[0],
        ["alice", "420", "1", "30.0", "512", "00:04:10", "firefox"]
    );
    assert_eq!(table.chart.rows[3], ["unknown", "77", "1", "5.0", "20", "00:03:00", "cron"]);
    assert_eq!(table.chart.rows[4], ["root", "1", "-", "0.0", "9", "00:01:40", "init"]);
    assert_eq!(table.chart.title, "Processes (5)");
    assert_eq!(table.chart.highlight, get_highlight_style(true));
    assert_eq!(table.max_scroll, 0);
}

#[test]
fn the_memory_cell_is_in_whole_mebibytes() {
    let mut small = process(Some("a"), 1, None, 0, 1048575, 0, 0, "small");
    small.cpu_text = String::from("0.3");
    let large = process(Some("a"), 2, None, 0, 3 * 1048576 + 5, 0, 0, "large");
    let table = create_processes_table(&vec![small, large], 4, 0, false, None);
    assert_eq!(table.chart.rows[0][4], "0");
    assert_eq!(table.chart.rows[0][3], "0.3");
    assert_eq!(table.chart.rows[1][4], "3");
}

#[test]
fn the_header_marks_the_sorted_column_with_an_arrow() {
    let processes = sample();
    let plain = ["User", "PID", "PPID", "CPU%", "MEM(MB)", "Time", "Command"];
    let table = create_processes_table(&processes, 12, 0, false, None);
    assert_eq!(table.chart.header, plain);
    let table = create_processes_table(
        &processes,
        12,
        0,
        false,
        Some((ProcessColumn::CPU, SortDirection::Ascending)),
    );
    assert_eq!(table.chart.header, ["User", "PID", "PPID", "CPU%\u{2191}", "MEM(MB)", "Time", "Command"]);
    let table = create_processes_table(
        &processes,
        12,
        0,
        false,
        Some((ProcessColumn::Command, SortDirection::Descending)),
    );
    assert_eq!(table.chart.header, ["User", "PID", "PPID", "CPU%", "MEM(MB)", "Time", "Command\u{2193}"]);
    let table = create_processes_table(
        &processes,
        12,
        0,
        false,
        Some((ProcessColumn::User, SortDirection::Descending)),
    );
    assert_eq!(table.chart.header[0], "User\u{2193}");
    assert_eq!(table.chart.header[1], "PID");
}

#[test]
fn the_window_shows_the_lines_from_the_scroll_position() {
    let processes = sample();
    let by_pid = Some((ProcessColumn::PID, SortDirection::Ascending));
    // A panel of five rows has three lines within its border.
    let table = create_processes_table(&processes, 5, 0, false, by_pid);
    assert_eq!(table.max_scroll, 2);
    let shown: Vec<&str> = table.chart.rows.iter().map(|row| row[1].as_str()).collect();
    assert_eq!(shown, ["1", "77", "99"]);
    let table = create_processes_table(&processes, 5, 2, false, by_pid);
    let shown: Vec<&str> = table.chart.rows.iter().map(|row| row[1].as_str()).collect();
    assert_eq!(shown, ["99", "300", "420"]);
    let table = create_processes_table(&processes, 5, 4, false, by_pid);
    let shown: Vec<&str> = table.chart.rows.iter().map(|row| row[1].as_str()).collect();
    assert_eq!(shown, ["420"]);
    let table = create_processes_table(&processes, 5, 9, false, by_pid);
    assert!(table.chart.rows.is_empty());
    assert_eq!(table.chart.title, "Processes (5)");
}

#[test]
fn a_panel_that_is_all_border_shows_no_line() {
    let processes = sample();
    let table = create_processes_table(&processes, 2, 0, false, None);
    assert!(table.chart.rows.is_empty());
    assert_eq!(table.max_scroll, 5);
    assert_eq!(table.chart.header.len(), 7);
}

#[test]
fn a_panel_can_be_built_for_any_order_of_the_lines() {
    let processes = sample();
    let order = vec![4, 3, 2, 1, 0];
    let table = table_in_order(&processes, &order, 5, 1, false, None);
    let shown: Vec<&str> = table.chart.rows.iter().map(|row| row[6].as_str()).collect();
    assert_eq!(shown, ["bash", "cron", "firefox"]);
    assert_eq!(table.max_scroll, 2);
}

#[test]
fn a_panel_lower_than_its_border_is_built_and_shows_no_line() {
    let processes = sample();
    for height in [0, 1] {
        let table = create_processes_table(&processes, height, 0, false, None);
        assert!(table.chart.rows.is_empty());
        assert_eq!(table.max_scroll, 5);
        assert_eq!(table.chart.title, "Processes (5)");
        assert_eq!(table.chart.header.len(), 7);
        let table = table_in_order(&processes, &vec![0, 1, 2, 3, 4], height, 3, true, None);
        assert!(table.chart.rows.is_empty());
        assert_eq!(table.max_scroll, 5);
    }
    let table = create_processes_table(&Vec::new(), 0, 0, false, None);
    assert!(table.chart.rows.is_empty());
    assert_eq!(table.max_scroll, 0);
}
