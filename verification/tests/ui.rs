use ratatui::layout::{Constraint, Direction, Layout, Rect};
use reson::cpu::CpuInfo;
use reson::layout::PanelRect;
use reson::ui::{
    prepare_layout, prepare_summary_tab_layout, render_cpu_details_tab, CpuDetailsTabLayout,
};

fn rect(x: u16, y: u16, width: u16, height: u16) -> PanelRect {
    PanelRect { x, y, width, height }
}

fn of_toolkit(parts: &[Rect]) -> Vec<PanelRect> {
    parts.iter().map(|r| rect(r.x, r.y, r.width, r.height)).collect()
}

fn cpus(count: u64) -> CpuInfo {
    CpuInfo {
        brand: String::from("Fast Core 9"),
        usages: (0..count).map(|n| (n * 7) % 101).collect(),
        total_usage: String::from("50"),
        frequency: 4200,
    }
}

#[test]
fn header_and_footer_take_one_row_each() {
    let layout = prepare_layout(rect(0, 0, 90, 30));
    assert_eq!(layout.header_area, rect(0, 0, 90, 1));
    assert_eq!(layout.footer_area, rect(0, 29, 90, 1));
    assert_eq!(layout.cpu_details_tab_layout.main_layout, rect(0, 1, 90, 28));
    assert_eq!(layout.summary_tab_layout, prepare_summary_tab_layout(rect(0, 1, 90, 28)));
}

#[test]
fn the_summary_tab_is_what_the_toolkit_makes_of_the_same_cuts() {
    let area = Rect { x: 0, y: 1, width: 90, height: 28 };
    let outer = Layout::default()
        .direction(Direction::Vertical)
        .margin(1)
        .constraints([
            Constraint::Percentage(30),
            Constraint::Percentage(30),
            Constraint::Percentage(18),
            Constraint::Percentage(20),
            Constraint::Percentage(2),
        ])
        .split(area);
    let inner = Layout::default()
        .direction(Direction::Horizontal)
        .margin(1)
        .constraints([Constraint::Percentage(50), Constraint::Percentage(50)])
        .split(outer[0]);
    let memory = Layout::default()
        .direction(Direction::Vertical)
        .margin(1)
        .constraints([Constraint::Percentage(50), Constraint::Percentage(50)])
        .split(inner[1]);
    let layout = prepare_summary_tab_layout(rect(0, 1, 90, 28));
    assert_eq!(layout.outer_layout, of_toolkit(&outer));
    assert_eq!(layout.inner_layout, of_toolkit(&inner));
    assert_eq!(layout.memory_layout, of_toolkit(&memory));
    assert_eq!(layout.outer_layout.len(), 5);
    assert_eq!(layout.inner_layout.len(), 2);
    assert_eq!(layout.memory_layout.len(), 2);
    for band in &layout.outer_layout {
        assert_eq!(band.x, 1);
        assert_eq!(band.width, 88);
    }
}

#[test]
fn the_processor_tab_shows_the_bars_that_fit_one_below_the_other() {
    let layout = CpuDetailsTabLayout { main_layout: rect(0, 1, 90, 28) };
    // 26 rows within the border hold four bars of six rows.
    let tab = render_cpu_details_tab(&cpus(12), &layout, 0);
    assert_eq!(tab.bars.len(), 4);
    assert_eq!(tab.content_length, 8);
    assert_eq!(tab.title, "CPU: Fast Core 9, Frequence: 4200 MHz");
    assert_eq!(tab.bars[0].label, "Core #1");
    assert_eq!(tab.bars[0].text_value, "  0%");
    assert_eq!(tab.bars[3].label, "Core #4");
    assert_eq!(tab.bars[3].value, 21);
    assert_eq!(tab.bars[3].text_value, " 21%");
    let tab = render_cpu_details_tab(&cpus(12), &layout, 10);
    assert_eq!(tab.bars.len(), 2);
    assert_eq!(tab.bars[0].label, "Core #11");
    assert_eq!(tab.bars[1].label, "Core #12");
    let tab = render_cpu_details_tab(&cpus(12), &layout, 12);
    assert!(tab.bars.is_empty());
}

#[test]
fn a_processor_tab_that_is_all_border_shows_no_bar() {
    for height in [0, 1, 2, 7] {
        let layout = CpuDetailsTabLayout { main_layout: rect(0, 0, 90, height) };
        let tab = render_cpu_details_tab(&cpus(3), &layout, 0);
        assert!(tab.bars.is_empty());
        assert_eq!(tab.content_length, 3);
    }
    let layout = CpuDetailsTabLayout { main_layout: rect(0, 0, 90, 8) };
    let tab = render_cpu_details_tab(&cpus(3), &layout, 0);
    assert_eq!(tab.bars.len(), 1);
    assert_eq!(tab.content_length, 2);
}

#[test]
fn a_processor_tab_with_room_for_all_bars_cannot_be_scrolled() {
    let layout = CpuDetailsTabLayout { main_layout: rect(0, 0, 90, 40) };
    // 38 rows within the border hold six bars; there are three processors.
    let tab = render_cpu_details_tab(&cpus(3), &layout, 0);
    assert_eq!(tab.bars.len(), 3);
    assert_eq!(tab.content_length, 0);
    let tab = render_cpu_details_tab(&cpus(0), &layout, 0);
    assert!(tab.bars.is_empty());
    assert_eq!(tab.content_length, 0);
}

#[test]
fn header_and_footer_have_their_row_in_every_terminal() {
    for height in 0..30u16 {
        for y in [0u16, 7, 65530] {
            let layout = prepare_layout(rect(2, y, 50, height));
            let bottom = (y as u32 + height as u32).min(65535) as u16;
            let rows = bottom - y;
            let header = if rows >= 1 { 1 } else { 0 };
            let footer = if rows >= 2 { 1 } else { 0 };
            assert_eq!(layout.header_area, rect(2, y, 50, header));
            assert_eq!(layout.footer_area, rect(2, bottom - footer, 50, footer));
            assert_eq!(
                layout.cpu_details_tab_layout.main_layout,
                rect(2, y + header, 50, rows - header - footer)
            );
        }
    }
}
