//! The network panel: the interfaces of the machine ordered by traffic, one
//! line for each, and their totals in the title.

use crate::layout::{get_highlight_style, HighlightStyle};
use crate::order::{
    lemma_rules_that_agree, lemma_stable_order_is_the_order, stable_order, stable_order_of,
    Precedence,
};
use crate::text::{
    decimal, decimal_digits, join_lines, joined_lines, padded, texts, two_digits,
};
use crate::viewport::{lines_within_border, max_scroll_of, scroll_range, visible_lines_of};
use vstd::arithmetic::div_mod::lemma_fundamental_div_mod;
use vstd::prelude::*;

verus! {

/// `a` divided by `d` and rounded to the nearest whole number; a quotient
/// that lies halfway between two whole numbers goes to the even one.
pub open spec fn rounded_quotient(a: nat, d: nat) -> nat {
    let q = a / d;
    let r = a % d;
    if 2 * r > d || (2 * r == d && q % 2 == 1) {
        q + 1
    } else {
        q
    }
}

/// The distance between neighbouring double-precision numbers around `n`:
/// one below two to the power of 53, and twice as much each time `n`
/// doubles from there.
pub open spec fn double_unit(n: nat) -> nat
    decreases n,
{
    if n < 0x20_0000_0000_0000 {
        1
    } else {
        2 * double_unit(n / 2)
    }
}

/// The double-precision number nearest to `n`, ties going to the one whose
/// last bit is zero.
pub open spec fn nearest_double(n: nat) -> nat {
    rounded_quotient(n, double_unit(n)) * double_unit(n)
}

/// `bytes` in hundredths of a mebibyte: the nearest double-precision number
/// is divided by two to the power of 20 and rounded to two decimals, a value
/// halfway between two going to the even one.
pub open spec fn hundredths_of_mib(bytes: nat) -> nat {
    rounded_quotient(nearest_double(bytes) * 100, 0x10_0000)
}

/// A rate of `bytes` per second as the panel writes it: from one mebibyte
/// on in mebibytes with two decimals, below that in whole kibibytes, rounded
/// down.
pub open spec fn rate_text(bytes: nat) -> Seq<char> {
    if bytes >= 0x10_0000 {
        decimal_digits(hundredths_of_mib(bytes) / 100) + "."@ + padded(
            decimal_digits(hundredths_of_mib(bytes) % 100),
            2,
            '0',
        ) + " MB/s"@
    } else {
        decimal_digits(bytes / 1024) + " KB/s"@
    }
}

/// Computes the distance between neighbouring double-precision numbers.
fn double_unit_of(n: u64) -> (unit: u64)
    ensures
        unit == double_unit(n as nat),
        1 <= unit <= 0x800,
{
    let mut unit: u64 = 1;
    let mut rest: u64 = n;
    let mut halvings: u64 = 0;
    while rest >= 0x20_0000_0000_0000
        invariant
            halvings <= 11,
            double_unit(n as nat) == unit * double_unit(rest as nat),
            halvings == 0 ==> unit == 1,
            halvings == 1 ==> unit == 2 && rest <= 0x7fff_ffff_ffff_ffff,
            halvings == 2 ==> unit == 4 && rest <= 0x3fff_ffff_ffff_ffff,
            halvings == 3 ==> unit == 8 && rest <= 0x1fff_ffff_ffff_ffff,
            halvings == 4 ==> unit == 0x10 && rest <= 0x0fff_ffff_ffff_ffff,
            halvings == 5 ==> unit == 0x20 && rest <= 0x07ff_ffff_ffff_ffff,
            halvings == 6 ==> unit == 0x40 && rest <= 0x03ff_ffff_ffff_ffff,
            halvings == 7 ==> unit == 0x80 && rest <= 0x01ff_ffff_ffff_ffff,
            halvings == 8 ==> unit == 0x100 && rest <= 0x00ff_ffff_ffff_ffff,
            halvings == 9 ==> unit == 0x200 && rest <= 0x007f_ffff_ffff_ffff,
            halvings == 10 ==> unit == 0x400 && rest <= 0x003f_ffff_ffff_ffff,
            halvings == 11 ==> unit == 0x800 && rest <= 0x001f_ffff_ffff_ffff,
        decreases rest,
    {
        rest = rest / 2;
        unit = unit * 2;
        halvings = halvings + 1;
    }
    unit
}

/// Divides and rounds to the nearest whole number, ties to the even one.
fn rounded_quotient_of(a: u128, d: u128) -> (q: u128)
    requires
        d > 0,
        d <= 0x10_0000,
        a <= 0xffff_ffff_ffff_ffff_ffff,
    ensures
        q == rounded_quotient(a as nat, d as nat),
        q <= a + 1,
{
    let q = a / d;
    let r = a % d;
    if 2 * r > d || (2 * r == d && q % 2 == 1) {
        q + 1
    } else {
        q
    }
}

/// Computes `bytes` in hundredths of a mebibyte.
fn hundredths_of_mib_of(bytes: u64) -> (hundredths: u64)
    ensures
        hundredths == hundredths_of_mib(bytes as nat),
{
    let unit = double_unit_of(bytes) as u128;
    let mantissa = rounded_quotient_of(bytes as u128, unit);
    proof {
        lemma_fundamental_div_mod(bytes as int, unit as int);
        assert(mantissa * unit <= bytes + unit) by (nonlinear_arith)
            requires
                mantissa <= bytes as u128 / unit + 1,
                bytes == unit * (bytes as u128 / unit) + bytes as u128 % unit,
                0 <= bytes as u128 % unit,
        ;
    }
    let nearest = mantissa * unit;
    let hundredths = rounded_quotient_of(nearest * 100, 0x10_0000);
    hundredths as u64
}

/// Writes a rate of `bytes` per second.
pub fn format_bytes_per_second(bytes: u64) -> (text: String)
    ensures
        text@ == rate_text(bytes as nat),
{
    if bytes >= 1024 * 1024 {
        let hundredths = hundredths_of_mib_of(bytes);
        let mut text = decimal(hundredths / 100);
        text.append(".");
        text.append(two_digits(hundredths % 100).as_str());
        text.append(" MB/s");
        text
    } else {
        let mut text = decimal(bytes / 1024);
        text.append(" KB/s");
        text
    }
}

/// One network interface of a snapshot of the machine.
#[derive(Clone, Debug, PartialEq, Eq)]
pub struct NetworkInfo {
    pub name: String,
    /// The bytes sent since the snapshot before.
    pub transmitted: u64,
    /// The bytes received since the snapshot before.
    pub received: u64,
    /// The packets sent since the snapshot before.
    pub packets_transmitted: u64,
    /// The packets received since the snapshot before.
    pub packets_received: u64,
    /// The hardware address, as it is written.
    pub mac_address: String,
}

/// A network interface as mathematics sees it.
pub struct NetworkView {
    pub name: Seq<char>,
    pub transmitted: nat,
    pub received: nat,
    pub packets_transmitted: nat,
    pub packets_received: nat,
    pub mac_address: Seq<char>,
}

impl NetworkView {
    /// The bytes sent and received.
    pub open spec fn traffic(self) -> nat {
        self.transmitted + self.received
    }
}

impl View for NetworkInfo {
    type V = NetworkView;

    open spec fn view(&self) -> NetworkView {
        NetworkView {
            name: self.name@,
            transmitted: self.transmitted as nat,
            received: self.received as nat,
            packets_transmitted: self.packets_transmitted as nat,
            packets_received: self.packets_received as nat,
            mac_address: self.mac_address@,
        }
    }
}

/// The views of a list of interfaces.
pub open spec fn network_views(networks: Seq<NetworkInfo>) -> Seq<NetworkView> {
    networks.map_values(|network: NetworkInfo| network@)
}

/// The traffic of all interfaces together.
pub struct TotalNetworkStats {
    pub transmitted_bytes: u64,
    pub received_bytes: u64,
    pub transmitted_packets: u64,
    pub received_packets: u64,
}

/// The totals as mathematics sees them.
pub struct TotalsView {
    pub transmitted_bytes: nat,
    pub received_bytes: nat,
    pub transmitted_packets: nat,
    pub received_packets: nat,
}

impl View for TotalNetworkStats {
    type V = TotalsView;

    open spec fn view(&self) -> TotalsView {
        TotalsView {
            transmitted_bytes: self.transmitted_bytes as nat,
            received_bytes: self.received_bytes as nat,
            transmitted_packets: self.transmitted_packets as nat,
            received_packets: self.received_packets as nat,
        }
    }
}

impl TotalsView {
    /// Whether each total fits in sixty-four bits.
    pub open spec fn fits(self) -> bool {
        &&& self.transmitted_bytes <= u64::MAX
        &&& self.received_bytes <= u64::MAX
        &&& self.transmitted_packets <= u64::MAX
        &&& self.received_packets <= u64::MAX
    }
}

/// The totals over the interfaces of a list.
pub open spec fn totals_of(networks: Seq<NetworkView>) -> TotalsView
    decreases networks.len(),
{
    if networks.len() == 0 {
        TotalsView {
            transmitted_bytes: 0,
            received_bytes: 0,
            transmitted_packets: 0,
            received_packets: 0,
        }
    } else {
        let rest = totals_of(networks.drop_last());
        let last = networks.last();
        TotalsView {
            transmitted_bytes: rest.transmitted_bytes + last.transmitted,
            received_bytes: rest.received_bytes + last.received,
            transmitted_packets: rest.transmitted_packets + last.packets_transmitted,
            received_packets: rest.received_packets + last.packets_received,
        }
    }
}

/// The totals over a part of a list are no greater than those over the
/// whole.
proof fn lemma_totals_grow(networks: Seq<NetworkView>, upto: int)
    requires
        0 <= upto <= networks.len(),
    ensures
        totals_of(networks.take(upto)).transmitted_bytes <= totals_of(networks).transmitted_bytes,
        totals_of(networks.take(upto)).received_bytes <= totals_of(networks).received_bytes,
        totals_of(networks.take(upto)).transmitted_packets <= totals_of(
            networks,
        ).transmitted_packets,
        totals_of(networks.take(upto)).received_packets <= totals_of(networks).received_packets,
    decreases networks.len(),
{
    if upto == networks.len() {
        assert(networks.take(upto) =~= networks);
    } else {
        lemma_totals_grow(networks.drop_last(), upto);
        assert(networks.drop_last().take(upto) =~= networks.take(upto));
    }
}

/// Adds up the traffic of the interfaces. There is no result where a total
/// does not fit in sixty-four bits.
pub fn total_stats(networks: &Vec<NetworkInfo>) -> (totals: Option<TotalNetworkStats>)
    ensures
        totals_of(network_views(networks@)).fits() <==> totals is Some,
        totals matches Some(stats) ==> stats@ == totals_of(network_views(networks@)),
{
    let ghost views = network_views(networks@);
    let mut stats = TotalNetworkStats {
        transmitted_bytes: 0,
        received_bytes: 0,
        transmitted_packets: 0,
        received_packets: 0,
    };
    let mut at: usize = 0;
    while at < networks.len()
        invariant
            at <= networks@.len(),
            views == network_views(networks@),
            stats@ == totals_of(views.take(at as int)),
        decreases networks@.len() - at,
    {
        let network = &networks[at];
        proof {
            assert(views.take(at + 1).drop_last() =~= views.take(at as int));
            assert(views.take(at + 1).last() == network@);
            lemma_totals_grow(views, at + 1);
        }
        let transmitted_bytes = stats.transmitted_bytes.checked_add(network.transmitted);
        let received_bytes = stats.received_bytes.checked_add(network.received);
        let transmitted_packets = stats.transmitted_packets.checked_add(
            network.packets_transmitted,
        );
        let received_packets = stats.received_packets.checked_add(network.packets_received);
        match (transmitted_bytes, received_bytes, transmitted_packets, received_packets) {
            (Some(a), Some(b), Some(c), Some(d)) => {
                stats = TotalNetworkStats {
                    transmitted_bytes: a,
                    received_bytes: b,
                    transmitted_packets: c,
                    received_packets: d,
                };
            },
            _ => {
                return None;
            },
        }
        at = at + 1;
    }
    assert(views.take(at as int) =~= views);
    Some(stats)
}

/// The rule of the panel: the interface with more traffic comes first.
pub open spec fn network_rule(networks: Seq<NetworkView>) -> spec_fn(int, int) -> bool {
    |i: int, j: int| networks[i].traffic() > networks[j].traffic()
}

/// The order in which the panel shows the interfaces, as their numbers in
/// the snapshot: the busiest first, interfaces that tie in the order of the
/// snapshot.
pub open spec fn network_order_of(networks: Seq<NetworkView>) -> Seq<usize> {
    stable_order_of(networks.len(), network_rule(networks))
}

/// The line of an interface: its name, the rates at which it sends and
/// receives, each followed by the unit of the column, the count of packets
/// sent, which stands under both `TX` and `RX`, and the hardware address.
pub open spec fn network_line(network: NetworkView) -> Seq<char> {
    network.name + ": \u{2191} "@ + rate_text(network.transmitted) + " KB/s \u{2193} "@
        + rate_text(network.received) + " KB/s | Packets: TX "@ + decimal_digits(
        network.packets_transmitted,
    ) + " RX "@ + decimal_digits(network.packets_transmitted) + " | MAC: "@
        + network.mac_address
}

/// The title of the panel: the rates at which all interfaces together send
/// and receive, each followed by the unit of the column, and the packets
/// that they sent and received.
pub open spec fn network_title(totals: TotalsView) -> Seq<char> {
    "Network Usage, Total: \u{2191} "@ + rate_text(totals.transmitted_bytes)
        + " KB/s \u{2193} "@ + rate_text(totals.received_bytes) + " KB/s | Packets: TX "@
        + decimal_digits(totals.transmitted_packets) + " RX "@ + decimal_digits(
        totals.received_packets,
    )
}

/// What the network panel shows.
#[derive(Clone, Debug, PartialEq, Eq)]
pub struct NetworksChart {
    pub title: String,
    /// The lines of all interfaces, with line feeds between them.
    pub text: String,
    /// The number of lines by which the text is scrolled.
    pub scroll: u16,
    pub highlight: HighlightStyle,
}

/// The network panel of one frame, and how far it can be scrolled.
#[derive(Clone, Debug, PartialEq, Eq)]
pub struct NetworksWidget {
    pub chart: NetworksChart,
    pub max_scroll: usize,
}

/// The network panel as mathematics sees it.
pub struct NetworksWidgetView {
    pub title: Seq<char>,
    pub text: Seq<char>,
    pub scroll: nat,
    pub highlight: HighlightStyle,
    pub max_scroll: nat,
}

impl View for NetworksWidget {
    type V = NetworksWidgetView;

    open spec fn view(&self) -> NetworksWidgetView {
        NetworksWidgetView {
            title: self.chart.title@,
            text: self.chart.text@,
            scroll: self.chart.scroll as nat,
            highlight: self.chart.highlight,
            max_scroll: self.max_scroll as nat,
        }
    }
}

/// The network panel for the given interfaces in a panel of `layout_height`
/// rows of which two are its border, scrolled by `scroll_position` lines. The
/// panel holds the lines of all interfaces; the scroll offset is the position
/// as far as it fits in sixteen bits.
pub open spec fn widget_view(
    networks: Seq<NetworkView>,
    layout_height: nat,
    scroll_position: nat,
    is_selected: bool,
) -> NetworksWidgetView {
    let order = network_order_of(networks);
    NetworksWidgetView {
        title: network_title(totals_of(networks)),
        text: joined_lines(
            Seq::new(networks.len(), |k: int| network_line(networks[order[k] as int])),
        ),
        scroll: scroll_position % 0x1_0000,
        highlight: HighlightStyle::of(is_selected),
        max_scroll: scroll_range(networks.len(), lines_within_border(layout_height)),
    }
}

/// The interfaces of a snapshot.
pub struct NetworkOrder<'a> {
    pub networks: &'a Vec<NetworkInfo>,
}

impl<'a> Precedence for NetworkOrder<'a> {
    open spec fn count(&self) -> nat {
        self.networks@.len()
    }

    open spec fn before(&self, i: int, j: int) -> bool {
        self.networks@[i]@.traffic() > self.networks@[j]@.traffic()
    }

    fn len(&self) -> (n: usize) {
        self.networks.len()
    }

    fn is_before(&self, i: usize, j: usize) -> (yes: bool) {
        let left = &self.networks[i];
        let right = &self.networks[j];
        left.transmitted as u128 + left.received as u128 > right.transmitted as u128
            + right.received as u128
    }

    proof fn lemma_rule_is_consistent(&self, i: int, j: int, k: int) {
    }
}

fn line_of(network: &NetworkInfo) -> (line: String)
    ensures
        line@ == network_line(network@),
{
    let mut line = network.name.clone();
    line.append(": \u{2191} ");
    line.append(format_bytes_per_second(network.transmitted).as_str());
    line.append(" KB/s \u{2193} ");
    line.append(format_bytes_per_second(network.received).as_str());
    line.append(" KB/s | Packets: TX ");
    line.append(decimal(network.packets_transmitted).as_str());
    line.append(" RX ");
    line.append(decimal(network.packets_transmitted).as_str());
    line.append(" | MAC: ");
    line.append(network.mac_address.as_str());
    line
}

fn title_of(totals: &TotalNetworkStats) -> (title: String)
    ensures
        title@ == network_title(totals@),
{
    let mut title = String::from_str("Network Usage, Total: \u{2191} ");
    title.append(format_bytes_per_second(totals.transmitted_bytes).as_str());
    title.append(" KB/s \u{2193} ");
    title.append(format_bytes_per_second(totals.received_bytes).as_str());
    title.append(" KB/s | Packets: TX ");
    title.append(decimal(totals.transmitted_packets).as_str());
    title.append(" RX ");
    title.append(decimal(totals.received_packets).as_str());
    title
}

/// Builds the network panel for totals that were added up before.
pub fn widget_with_totals(
    networks: &Vec<NetworkInfo>,
    totals: &TotalNetworkStats,
    layout_height: usize,
    scroll_position: usize,
    is_selected: bool,
) -> (widget: NetworksWidget)
    requires
        totals@ == totals_of(network_views(networks@)),
    ensures
        widget@ == widget_view(
            network_views(networks@),
            layout_height as nat,
            scroll_position as nat,
            is_selected,
        ),
{
    let visible_lines = visible_lines_of(layout_height);
    let items = NetworkOrder { networks };
    let order = stable_order(&items);
    let ghost views = network_views(networks@);
    proof {
        lemma_rules_that_agree(
            order@,
            items.count(),
            |i: int, j: int| items.before(i, j),
            network_rule(views),
        );
        lemma_stable_order_is_the_order(order@, views.len(), network_rule(views));
    }
    let mut lines: Vec<String> = Vec::new();
    let mut done: usize = 0;
    while done < order.len()
        invariant
            done <= order@.len(),
            order@.len() == networks@.len(),
            views == network_views(networks@),
            forall|i: int| 0 <= i < order@.len() ==> (#[trigger] order@[i]) < networks@.len(),
            texts(lines@) =~= Seq::new(done as nat, |k: int| network_line(views[order@[k] as int])),
        decreases order@.len() - done,
    {
        let ghost before = lines@;
        let line = line_of(&networks[order[done]]);
        lines.push(line);
        assert(texts(lines@) =~= texts(before).push(line@));
        done = done + 1;
    }
    let widget = NetworksWidget {
        chart: NetworksChart {
            title: title_of(totals),
            text: join_lines(&lines),
            scroll: (scroll_position % 0x1_0000) as u16,
            highlight: get_highlight_style(is_selected),
        },
        max_scroll: max_scroll_of(networks.len(), visible_lines),
    };
    assert(texts(lines@) =~= Seq::new(
        views.len(),
        |k: int| network_line(views[network_order_of(views)[k] as int]),
    ));
    widget
}

/// Builds the network panel of a frame.
pub fn create_networks_widget(
    networks: &Vec<NetworkInfo>,
    layout_height: usize,
    scroll_position: usize,
    is_selected: bool,
) -> (widget: NetworksWidget)
    requires
        totals_of(network_views(networks@)).fits(),
    ensures
        widget@ == widget_view(
            network_views(networks@),
            layout_height as nat,
            scroll_position as nat,
            is_selected,
        ),
{
    let totals = total_stats(networks).unwrap();
    widget_with_totals(networks, &totals, layout_height, scroll_position, is_selected)
}

} // verus!
