//! The hosts as the console shows them: a wall of cards.
use crate::console::model;
use crate::console::model::{
    apply_host_run_usage, host_usage_summary, HostCardView, HostCardViewView, RunRow, RunRowView,
};
use crate::seqs::copy_rows;
use crate::text;
use crate::text::{chars_of, decimal_text};
use vstd::prelude::*;
use vstd::string::*;

verus! {

/// What of the window's width the cards cannot use.
pub const PAGE_HORIZONTAL_CHROME: i32 = 80;

pub const CARD_GAP: i32 = 12;

pub const CARD_MIN_WIDTH: i32 = 280;

pub const CARD_MAX_WIDTH: i32 = 390;

/// What of a card's width its text cannot use.
pub const CARD_TEXT_CHROME: i32 = 126;

pub const CARD_BASE_HEIGHT: i32 = 168;

pub const ROUTE_LINE_HEIGHT: i32 = 18;

/// The least width that the cards are laid out for.
pub const WALL_MIN_WIDTH: i32 = 220;

/// The cards, in columns; all are of one size.
#[derive(Debug, PartialEq, Eq)]
pub struct HostWallLayout {
    pub hosts: Vec<HostCardView>,
    pub columns: usize,
    pub card_width: i32,
    pub card_height: i32,
    pub route_lines: usize,
}

/// What a `HostWallLayout` says.
pub struct HostWallLayoutView {
    pub hosts: Seq<HostCardViewView>,
    pub columns: usize,
    pub card_width: i32,
    pub card_height: i32,
    pub route_lines: usize,
}

impl View for HostWallLayout {
    type V = HostWallLayoutView;

    open spec fn view(&self) -> HostWallLayoutView {
        HostWallLayoutView {
            hosts: self.hosts.deep_view(),
            columns: self.columns,
            card_width: self.card_width,
            card_height: self.card_height,
            route_lines: self.route_lines,
        }
    }
}

impl DeepView for HostWallLayout {
    type V = HostWallLayoutView;

    open spec fn deep_view(&self) -> HostWallLayoutView {
        self.view()
    }
}

impl Clone for HostWallLayout {
    fn clone(&self) -> (copy: Self)
        ensures
            copy@ == self@,
    {
        HostWallLayout {
            hosts: copy_rows(&self.hosts),
            columns: self.columns,
            card_width: self.card_width,
            card_height: self.card_height,
            route_lines: self.route_lines,
        }
    }
}

/// What the page of hosts shows.
#[derive(Debug)]
pub struct HostsViewState {
    pub hosts: Vec<HostCardView>,
    pub last_rows: Vec<RunRow>,
    pub status: String,
    pub usage: String,
    pub viewport_width: i32,
    pub wall: Option<HostWallLayout>,
}

/// What a `HostsViewState` says.
pub struct HostsViewStateView {
    pub hosts: Seq<HostCardViewView>,
    pub last_rows: Seq<RunRowView>,
    pub status: Seq<char>,
    pub usage: Seq<char>,
    pub viewport_width: i32,
    pub wall: Option<HostWallLayoutView>,
}

impl View for HostsViewState {
    type V = HostsViewStateView;

    open spec fn view(&self) -> HostsViewStateView {
        HostsViewStateView {
            hosts: self.hosts.deep_view(),
            last_rows: self.last_rows.deep_view(),
            status: self.status@,
            usage: self.usage@,
            viewport_width: self.viewport_width,
            wall: self.wall.deep_view(),
        }
    }
}

impl DeepView for HostsViewState {
    type V = HostsViewStateView;

    open spec fn deep_view(&self) -> HostsViewStateView {
        self.view()
    }
}

impl Clone for HostsViewState {
    fn clone(&self) -> (copy: Self)
        ensures
            copy@ == self@,
    {
        HostsViewState {
            hosts: copy_rows(&self.hosts),
            last_rows: copy_rows(&self.last_rows),
            status: self.status.clone(),
            usage: self.usage.clone(),
            viewport_width: self.viewport_width,
            wall: match &self.wall {
                Some(value) => Some(value.clone()),
                None => None,
            },
        }
    }
}

// ---------------------------------------------------------------------------
// Measures
// ---------------------------------------------------------------------------

/// How wide a text is: a character beyond ASCII counts twice.
pub open spec fn units(value: Seq<char>) -> nat
    decreases value.len(),
{
    if value.len() == 0 {
        0
    } else {
        units(value.drop_last()) + if (value.last() as u32) < 128 {
            1nat
        } else {
            2nat
        }
    }
}

pub fn display_units(value: &str) -> (width: u128)
    ensures
        width == units(value@),
        width <= 2 * usize::MAX,
{
    let chars = chars_of(value);
    let mut width: u128 = 0;
    let mut i: usize = 0;
    assert(chars@.take(0) =~= Seq::<char>::empty());
    while i < chars.len()
        invariant
            i <= chars@.len(),
            width == units(chars@.take(i as int)),
            width <= 2 * i,
        decreases chars@.len() - i,
    {
        assert(chars@.take(i + 1).drop_last() =~= chars@.take(i as int));
        if (chars[i] as u32) < 128 {
            width += 1;
        } else {
            width += 2;
        }
        i += 1;
    }
    assert(chars@.take(i as int) =~= chars@);
    width
}

/// How many pieces of a size a length takes.
pub open spec fn pieces(value: nat, size: nat) -> nat {
    if size == 0 {
        value
    } else {
        ((value + size - 1) / size as int) as nat
    }
}

pub fn div_ceil(value: u128, divisor: u128) -> (count: u128)
    requires
        value + divisor <= u128::MAX,
    ensures
        count == pieces(value as nat, divisor as nat),
{
    if divisor == 0 {
        value
    } else {
        (value + (divisor - 1)) / divisor
    }
}

/// The most that `measure` gives of any item.
pub open spec fn most<T>(items: Seq<T>, measure: spec_fn(T) -> nat) -> nat
    decreases items.len(),
{
    if items.len() == 0 {
        0
    } else {
        larger(most(items.drop_last(), measure), measure(items.last()))
    }
}

pub open spec fn larger(left: nat, right: nat) -> nat {
    if left < right {
        right
    } else {
        left
    }
}

fn larger_of(left: u128, right: u128) -> (most: u128)
    ensures
        most == larger(left as nat, right as nat),
{
    if left < right {
        right
    } else {
        left
    }
}

/// The widest text on a card.
pub open spec fn card_units() -> spec_fn(HostCardViewView) -> nat {
    |host: HostCardViewView|
        larger(
            larger(units(host.alias), units(host.endpoint)),
            larger(units(host.route), units(model::usage_word(host.live_runs as nat))),
        )
}

/// The width that suits the widest text on any card.
pub open spec fn preferred_width(hosts: Seq<HostCardViewView>) -> int {
    let longest = if hosts.len() == 0 {
        20
    } else {
        most(hosts, card_units())
    };
    let width = CARD_TEXT_CHROME + longest * 6;
    if width < CARD_MIN_WIDTH {
        CARD_MIN_WIDTH as int
    } else if width > CARD_MAX_WIDTH {
        CARD_MAX_WIDTH as int
    } else {
        width
    }
}

pub fn preferred_card_width(hosts: &Vec<HostCardView>) -> (width: i32)
    ensures
        width == preferred_width(hosts.deep_view()),
        CARD_MIN_WIDTH <= width <= CARD_MAX_WIDTH,
{
    let mut longest: u128 = 0;
    let mut i: usize = 0;
    assert(hosts.deep_view().len() == hosts@.len());
    assert(hosts.deep_view().take(0) =~= Seq::<HostCardViewView>::empty());
    while i < hosts.len()
        invariant
            i <= hosts@.len(),
            longest == most(hosts.deep_view().take(i as int), card_units()),
        decreases hosts@.len() - i,
    {
        let host = &hosts[i];
        proof {
            let now = hosts.deep_view().take(i + 1);
            assert(now.drop_last() =~= hosts.deep_view().take(i as int));
            assert(now.last() == host@);
        }
        let names = larger_of(
            display_units(host.alias.as_str()),
            display_units(host.endpoint.as_str()),
        );
        let notes = larger_of(
            display_units(host.route.as_str()),
            display_units(host.usage_label().as_str()),
        );
        longest = larger_of(longest, larger_of(names, notes));
        i += 1;
    }
    assert(hosts.deep_view().take(i as int) =~= hosts.deep_view());
    if hosts.len() == 0 {
        longest = 20;
    }
    if longest > 44 {
        return CARD_MAX_WIDTH;
    }
    let width: i32 = CARD_TEXT_CHROME + longest as i32 * 6;
    if width < CARD_MIN_WIDTH {
        CARD_MIN_WIDTH
    } else {
        width
    }
}

// ---------------------------------------------------------------------------
// The wall
// ---------------------------------------------------------------------------

/// The width that the cards have together.
pub open spec fn wall_width(viewport_width: int) -> int {
    if viewport_width - PAGE_HORIZONTAL_CHROME < WALL_MIN_WIDTH {
        WALL_MIN_WIDTH as int
    } else {
        viewport_width - PAGE_HORIZONTAL_CHROME
    }
}

pub open spec fn card_width_in(viewport_width: int, hosts: Seq<HostCardViewView>) -> int {
    if preferred_width(hosts) < wall_width(viewport_width) {
        preferred_width(hosts)
    } else {
        wall_width(viewport_width)
    }
}

/// How many cards stand side by side, with a gap between each two.
pub open spec fn columns_in(viewport_width: int, hosts: Seq<HostCardViewView>) -> int {
    (wall_width(viewport_width) + CARD_GAP) / (card_width_in(viewport_width, hosts) + CARD_GAP)
}

/// How much of a route stands on one line of a card.
pub open spec fn route_capacity(card_width: int) -> nat {
    if (card_width - 44) / 7 < 18 {
        18
    } else {
        ((card_width - 44) / 7) as nat
    }
}

pub open spec fn route_length(capacity: nat) -> spec_fn(HostCardViewView) -> nat {
    |host: HostCardViewView| pieces(units(host.route), capacity)
}

/// The lines that the longest route takes, of one to three.
pub open spec fn route_lines_in(capacity: nat, hosts: Seq<HostCardViewView>) -> nat {
    let lines = most(hosts, route_length(capacity));
    if lines < 1 {
        1
    } else if lines > 3 {
        3
    } else {
        lines
    }
}

pub open spec fn laid_out(viewport_width: int, hosts: Seq<HostCardViewView>) -> HostWallLayoutView {
    let card_width = card_width_in(viewport_width, hosts);
    let lines = route_lines_in(route_capacity(card_width), hosts);
    HostWallLayoutView {
        hosts,
        columns: columns_in(viewport_width, hosts) as usize,
        card_width: card_width as i32,
        card_height: (CARD_BASE_HEIGHT + (lines - 1) * ROUTE_LINE_HEIGHT) as i32,
        route_lines: lines as usize,
    }
}

fn count_route_lines(hosts: &Vec<HostCardView>, capacity: u128) -> (lines: usize)
    requires
        capacity <= 1_000,
    ensures
        lines == route_lines_in(capacity as nat, hosts.deep_view()),
        1 <= lines <= 3,
{
    let ghost measure = route_length(capacity as nat);
    let mut lines: u128 = 0;
    let mut i: usize = 0;
    assert(hosts.deep_view().take(0) =~= Seq::<HostCardViewView>::empty());
    while i < hosts.len()
        invariant
            i <= hosts@.len(),
            capacity <= 1_000,
            measure == route_length(capacity as nat),
            lines == most(hosts.deep_view().take(i as int), measure),
        decreases hosts@.len() - i,
    {
        proof {
            let now = hosts.deep_view().take(i + 1);
            assert(now.drop_last() =~= hosts.deep_view().take(i as int));
            assert(now.last() == hosts@[i as int]@);
        }
        let width = display_units(hosts[i].route.as_str());
        lines = larger_of(lines, div_ceil(width, capacity));
        i += 1;
    }
    assert(hosts.deep_view().take(i as int) =~= hosts.deep_view());
    if lines < 1 {
        1
    } else if lines > 3 {
        3
    } else {
        lines as usize
    }
}

pub fn host_wall_layout(viewport_width: i32, hosts: &Vec<HostCardView>) -> (layout: HostWallLayout)
    ensures
        layout@ == laid_out(viewport_width as int, hosts.deep_view()),
        layout.columns == columns_in(viewport_width as int, hosts.deep_view()),
        layout.columns >= 1,
        layout.card_width == card_width_in(viewport_width as int, hosts.deep_view()),
        1 <= layout.route_lines <= 3,
{
    let available: i32 = if viewport_width < WALL_MIN_WIDTH + PAGE_HORIZONTAL_CHROME {
        WALL_MIN_WIDTH
    } else {
        viewport_width - PAGE_HORIZONTAL_CHROME
    };
    let preferred = preferred_card_width(hosts);
    let card_width: i32 = if preferred < available {
        preferred
    } else {
        available
    };
    let columns: i32 = (available + CARD_GAP) / (card_width + CARD_GAP);
    proof {
        wall_fits(viewport_width as int, hosts.deep_view());
    }
    let capacity: i32 = (card_width - 44) / 7;
    let capacity: i32 = if capacity < 18 {
        18
    } else {
        capacity
    };
    let route_lines = count_route_lines(hosts, capacity as u128);
    HostWallLayout {
        hosts: copy_rows(hosts),
        columns: columns as usize,
        card_width,
        card_height: CARD_BASE_HEIGHT + (route_lines as i32 - 1) * ROUTE_LINE_HEIGHT,
        route_lines,
    }
}

// ---------------------------------------------------------------------------
// The page
// ---------------------------------------------------------------------------

/// The wall of the hosts, where there are any.
pub open spec fn wall_of(viewport_width: i32, hosts: Seq<HostCardViewView>) -> Option<
    HostWallLayoutView,
> {
    if hosts.len() == 0 {
        None
    } else {
        Some(laid_out(viewport_width as int, hosts))
    }
}

pub open spec fn usage_text(rows: Seq<RunRowView>) -> Seq<char> {
    if model::busy_hosts(rows).len() == 0 {
        "No live Runs are currently using an SSH/local Host."@
    } else {
        text::joined(model::busy_hosts(rows).map_values(model::usage_line(rows)), "\n"@)
    }
}

/// What is said of the hosts that were found.
pub open spec fn found_text(count: nat) -> Seq<char> {
    if count == 0 {
        "No exact Host aliases are declared in ~/.ssh/config."@
    } else {
        text::decimal(count) + " exact OpenSSH Host alias"@ + (if count == 1 {
            ""@
        } else {
            "es"@
        }) + " · read-only projection from ssh -G"@
    }
}

/// What is said where the hosts could not be read.
pub open spec fn unreadable_text(error: Seq<char>) -> Seq<char> {
    "Could not resolve OpenSSH Host aliases.\n"@ + error
        + "\nThis is a configuration error, not an empty Host list."@
}

impl HostsViewStateView {
    /// The wall shows the hosts at the width of the window.
    pub open spec fn coherent(self) -> bool {
        self.wall == wall_of(self.viewport_width, self.hosts)
    }

    pub open spec fn with_hosts(self, found: Result<Seq<HostCardViewView>, Seq<char>>) -> Self {
        let hosts = match found {
            Ok(hosts) => hosts.map_values(model::used_by(self.last_rows)),
            Err(_) => Seq::empty(),
        };
        HostsViewStateView {
            hosts,
            status: match found {
                Ok(hosts) => found_text(hosts.len()),
                Err(error) => unreadable_text(error),
            },
            wall: wall_of(self.viewport_width, hosts),
            ..self
        }
    }

    pub open spec fn with_rows(self, rows: Seq<RunRowView>) -> Self {
        let hosts = self.hosts.map_values(model::used_by(rows));
        HostsViewStateView {
            hosts,
            last_rows: rows,
            usage: usage_text(rows),
            wall: wall_of(self.viewport_width, hosts),
            ..self
        }
    }

    pub open spec fn with_width(self, width: i32) -> Self {
        if width > 0 {
            HostsViewStateView {
                viewport_width: width,
                wall: wall_of(width, self.hosts),
                ..self
            }
        } else {
            self
        }
    }
}

impl HostsViewState {
    pub fn new() -> (page: Self)
        ensures
            page@ == (HostsViewStateView {
                hosts: Seq::empty(),
                last_rows: Seq::empty(),
                status: "Reading exact Host aliases from ~/.ssh/config..."@,
                usage: "No live Runs are currently using an SSH/local Host."@,
                viewport_width: 1080,
                wall: None,
            }),
            page@.coherent(),
    {
        let page = HostsViewState {
            hosts: Vec::new(),
            last_rows: Vec::new(),
            status: "Reading exact Host aliases from ~/.ssh/config...".to_owned(),
            usage: "No live Runs are currently using an SSH/local Host.".to_owned(),
            viewport_width: 1080,
            wall: None,
        };
        assert(page@.hosts =~= Seq::empty());
        assert(page@.last_rows =~= Seq::empty());
        page
    }

    fn rebuild_wall(&mut self)
        ensures
            final(self)@ == (HostsViewStateView {
                wall: wall_of(old(self)@.viewport_width, old(self)@.hosts),
                ..old(self)@
            }),
    {
        assert(self.hosts.deep_view().len() == self.hosts@.len());
        self.wall = if self.hosts.len() == 0 {
            None
        } else {
            Some(host_wall_layout(self.viewport_width, &self.hosts))
        };
    }

    /// Takes the hosts that were found, or why none could be.
    pub fn apply_hosts(&mut self, result: Result<Vec<HostCardView>, String>)
        ensures
            final(self)@ == old(self)@.with_hosts(
                match result {
                    Ok(hosts) => Ok(hosts.deep_view()),
                    Err(error) => Err(error@),
                },
            ),
            final(self)@.coherent(),
    {
        match result {
            Ok(found) => {
                let mut hosts = found;
                assert(hosts.deep_view().len() == hosts@.len());
                let count = hosts.len();
                apply_host_run_usage(&mut hosts, &self.last_rows);
                self.status = if count == 0 {
                    "No exact Host aliases are declared in ~/.ssh/config.".to_owned()
                } else {
                    let mut status = decimal_text(count as u64);
                    status.append(" exact OpenSSH Host alias");
                    status.append(if count == 1 { "" } else { "es" });
                    status.append(" · read-only projection from ssh -G");
                    status
                };
                self.hosts = hosts;
            },
            Err(error) => {
                self.hosts = Vec::new();
                assert(self@.hosts =~= Seq::empty());
                let mut status = "Could not resolve OpenSSH Host aliases.\n".to_owned();
                status.append(error.as_str());
                status.append("\nThis is a configuration error, not an empty Host list.");
                self.status = status;
            },
        }
        self.rebuild_wall();
    }

    /// Takes the runs, and counts them on the hosts.
    pub fn apply_run_usage(&mut self, rows: &Vec<RunRow>)
        ensures
            final(self)@ == old(self)@.with_rows(rows.deep_view()),
            final(self)@.coherent(),
    {
        self.last_rows = copy_rows(rows);
        self.usage = host_usage_summary(rows);
        let mut hosts = copy_rows(&self.hosts);
        apply_host_run_usage(&mut hosts, rows);
        self.hosts = hosts;
        self.rebuild_wall();
    }

    pub fn set_viewport_width(&mut self, width: i32)
        ensures
            final(self)@ == old(self)@.with_width(width),
            old(self)@.coherent() ==> final(self)@.coherent(),
    {
        if width > 0 {
            self.viewport_width = width;
            self.rebuild_wall();
        }
    }
}

// ---------------------------------------------------------------------------
// Laws
// ---------------------------------------------------------------------------

/// At least one card stands in a row, no card is wider than the most that a
/// card may have, and a row of cards with its gaps fits the width that there is.
pub proof fn wall_fits(viewport_width: int, hosts: Seq<HostCardViewView>)
    ensures
        columns_in(viewport_width, hosts) >= 1,
        WALL_MIN_WIDTH <= card_width_in(viewport_width, hosts) <= CARD_MAX_WIDTH,
        columns_in(viewport_width, hosts) * card_width_in(viewport_width, hosts) + (columns_in(
            viewport_width,
            hosts,
        ) - 1) * CARD_GAP <= wall_width(viewport_width),
        columns_in(viewport_width, hosts) <= wall_width(viewport_width),
{
    let wall = wall_width(viewport_width);
    let card = card_width_in(viewport_width, hosts);
    let columns = columns_in(viewport_width, hosts);
    assert(columns >= 1 && columns * (card + 12) <= wall + 12 && columns <= wall) by (nonlinear_arith)
        requires
            columns == (wall + 12) / (card + 12),
            220 <= card <= wall,
    ;
    assert(columns * (card + 12) == columns * card + columns * 12) by (nonlinear_arith);
}

/// A wider window has no fewer cards side by side.
pub proof fn wider_window_has_no_fewer_columns(
    narrow: int,
    wide: int,
    hosts: Seq<HostCardViewView>,
)
    requires
        narrow <= wide,
    ensures
        columns_in(narrow, hosts) <= columns_in(wide, hosts),
{
    wall_fits(narrow, hosts);
    wall_fits(wide, hosts);
    let preferred = preferred_width(hosts);
    if wall_width(narrow) <= preferred {
        assert(columns_in(narrow, hosts) == 1) by {
            let sum = wall_width(narrow) + CARD_GAP;
            assert(sum / sum == 1) by (nonlinear_arith)
                requires
                    sum > 0,
            ;
        }
    } else {
        let few = wall_width(narrow) + CARD_GAP;
        let many = wall_width(wide) + CARD_GAP;
        let size = preferred + CARD_GAP;
        assert(few / size <= many / size) by (nonlinear_arith)
            requires
                few <= many,
                size > 0,
        ;
    }
}

/// Every host has a card on the wall, in its place.
pub proof fn wall_shows_every_host(viewport_width: i32, hosts: Seq<HostCardViewView>)
    ensures
        hosts.len() > 0 ==> {
            &&& wall_of(viewport_width, hosts) is Some
            &&& wall_of(viewport_width, hosts)->0.hosts == hosts
        },
        hosts.len() == 0 ==> wall_of(viewport_width, hosts) is None,
{
}

} // verus!
