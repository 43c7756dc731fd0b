//! The daemon's state and what each event does to it.
//!
//! An event is handled in two steps. `receive` takes the event, changes what
//! can be changed at once and says what remains to be done. Where that needs
//! the windows that are open, the caller fetches a fresh layout tree and hands
//! it to `carry_out`, which finishes the change and returns the orders for
//! the window manager.

use crate::cmd::Cmd;
use crate::command::{orders_of, Instruction, Order};
use crate::config::{Config, Opacity};
use crate::i3::{find_focused, first_focused, last_focused, walk, I3Event, Node, Window};
use crate::i3::PROBABLE_AMOUNT_OF_WINDOWS;
use std::collections::HashSet;
use vstd::prelude::*;

verus! {

/// Anything that the daemon reacts to.
#[derive(Clone, Copy, Debug, PartialEq, Eq, Structural)]
pub enum Event {
    /// The configuration was loaded anew.
    ConfigReloaded(Config),
    /// The window manager reported something.
    Manager(I3Event),
    /// A control client sent a command.
    Control(Cmd),
}

/// What remains to be done for an event once it was received.
#[derive(Clone, Copy, Debug, PartialEq, Eq, Structural)]
pub enum Plan {
    /// Nothing.
    Idle,
    /// Leave the event loop.
    Quit,
    /// Restore the focused window and dim the others.
    Dim,
    /// Restore every window.
    Restore,
    /// Exempt the focused window from dimming.
    BlacklistFocused,
    /// Lift the exemption of the focused window.
    UnblacklistFocused,
}

impl Plan {
    /// The plan cannot be carried out without a fresh layout tree.
    pub open spec fn spec_needs_tree(self) -> bool {
        self != Plan::Idle && self != Plan::Quit
    }

    /// The plan cannot be carried out without a fresh layout tree.
    #[verifier::when_used_as_spec(spec_needs_tree)]
    pub fn needs_tree(self) -> (r: bool)
        ensures
            r == self.spec_needs_tree(),
    {
        match self {
            Plan::Idle => false,
            Plan::Quit => false,
            _ => true,
        }
    }
}

/// The daemon's state as a mathematical value.
#[verifier::ext_equal]
pub struct DaemonState {
    /// Whether unfocused windows are dimmed.
    pub transparency_active: bool,
    /// The opacity given to unfocused windows.
    pub opacity: Opacity,
    /// The windows exempt from dimming.
    pub blacklist: Set<i64>,
}

/// The state in which a daemon starts: flag and opacity as configured, and
/// no window exempt.
pub open spec fn initial_state(config: Config) -> DaemonState {
    DaemonState {
        transparency_active: config.transparency_at_start,
        opacity: config.opacity,
        blacklist: Set::empty(),
    }
}

/// The state right after an event was received, before any layout tree was
/// looked at.
pub open spec fn state_after(s: DaemonState, event: Event) -> DaemonState {
    match event {
        Event::ConfigReloaded(config) => DaemonState { opacity: config.opacity, ..s },
        Event::Manager(I3Event::CloseWindow(id)) => DaemonState {
            blacklist: s.blacklist.remove(id),
            ..s
        },
        Event::Manager(_) => s,
        Event::Control(Cmd::Disable) => DaemonState { transparency_active: false, ..s },
        Event::Control(Cmd::Enable) => DaemonState { transparency_active: true, ..s },
        Event::Control(Cmd::Toggle) => DaemonState {
            transparency_active: !s.transparency_active,
            ..s
        },
        Event::Control(_) => s,
    }
}

/// What remains to be done for an event received in state `s`.
pub open spec fn plan_for(s: DaemonState, event: Event) -> Plan {
    match event {
        Event::ConfigReloaded(_) | Event::Manager(I3Event::FocusChanged) => if s.transparency_active {
            Plan::Dim
        } else {
            Plan::Idle
        },
        Event::Manager(I3Event::Shutdown) => Plan::Quit,
        Event::Manager(I3Event::CloseWindow(_)) => Plan::Idle,
        Event::Control(Cmd::Disable) => Plan::Restore,
        Event::Control(Cmd::Enable) => Plan::Dim,
        Event::Control(Cmd::Toggle) => if s.transparency_active {
            Plan::Restore
        } else {
            Plan::Dim
        },
        Event::Control(Cmd::FocusBlacklist) => Plan::BlacklistFocused,
        Event::Control(Cmd::FocusBlacklistRemove) => Plan::UnblacklistFocused,
    }
}

/// The state once a plan was carried out on the windows found open.
pub open spec fn state_after_plan(s: DaemonState, plan: Plan, windows: Seq<Window>) -> DaemonState {
    match (plan, first_focused(windows)) {
        (Plan::BlacklistFocused, Some(id)) => DaemonState { blacklist: s.blacklist.insert(id), ..s },
        (Plan::UnblacklistFocused, Some(id)) => DaemonState {
            blacklist: s.blacklist.remove(id),
            ..s
        },
        _ => s,
    }
}

/// The identifiers of a sequence of windows, in order.
pub open spec fn ids(windows: Seq<Window>) -> Seq<i64> {
    windows.map_values(|w: Window| w.id)
}

/// The test that a window is dimmed: it lacks the focus and is not exempt.
pub open spec fn dimmable(blacklist: Set<i64>) -> spec_fn(Window) -> bool {
    |w: Window| !w.focused && !blacklist.contains(w.id)
}

/// The windows that are dimmed, in visiting order.
pub open spec fn dim_targets(windows: Seq<Window>, blacklist: Set<i64>) -> Seq<i64> {
    ids(windows.filter(dimmable(blacklist)))
}

/// The orders that dim the unfocused windows: none while dimming is off;
/// else full opacity for the last window found focused, if there is one, and
/// then one order that gives every dimmable window the live opacity.
pub open spec fn dim_orders(s: DaemonState, windows: Seq<Window>) -> Seq<Order> {
    if !s.transparency_active {
        Seq::empty()
    } else {
        let batch = Order::Batch {
            windows: dim_targets(windows, s.blacklist),
            opacity: s.opacity,
        };
        match last_focused(windows) {
            Some(id) => seq![Order::Single { window: id, opacity: Opacity::spec_max() }, batch],
            None => seq![batch],
        }
    }
}

/// The order that restores every window, exempt or not, to full opacity.
pub open spec fn restore_order(windows: Seq<Window>) -> Order {
    Order::Batch { windows: ids(windows), opacity: Opacity::spec_max() }
}

/// The orders that carrying out a plan sends to the window manager.
pub open spec fn orders_for(s: DaemonState, plan: Plan, windows: Seq<Window>) -> Seq<Order> {
    match plan {
        Plan::Dim => dim_orders(s, windows),
        Plan::Restore => seq![restore_order(windows)],
        _ => Seq::empty(),
    }
}

/// The order that restores every window of the tree to full opacity.
pub fn remove_all_transparency(root: Node) -> (r: Instruction)
    ensures
        r@ == restore_order(walk(root)),
{
    let windows = root.windows();
    let mut all: Vec<i64> = Vec::with_capacity(PROBABLE_AMOUNT_OF_WINDOWS);
    let mut i: usize = 0;
    while i < windows.len()
        invariant
            i <= windows.len(),
            all@ == ids(windows@.take(i as int)),
        decreases windows.len() - i,
    {
        all.push(windows[i].id);
        i += 1;
    }
    proof {
        assert(windows@.take(windows.len() as int) =~= windows@);
    }
    Instruction::Batch { windows: all, opacity: Opacity::max() }
}

/// The daemon's state. Only the event loop's owner changes it.
pub struct Daemon {
    transparency_active: bool,
    transparency: Opacity,
    blacklist: HashSet<i64>,
}

impl View for Daemon {
    type V = DaemonState;

    closed spec fn view(&self) -> DaemonState {
        DaemonState {
            transparency_active: self.transparency_active,
            opacity: self.transparency,
            blacklist: self.blacklist@,
        }
    }
}

impl Daemon {
    /// A daemon in the state that `config` asks for, with no window exempt.
    pub fn new(config: Config) -> (r: Daemon)
        ensures
            r@ =~= initial_state(config),
    {
        Daemon {
            transparency_active: config.transparency_at_start,
            transparency: config.opacity,
            blacklist: HashSet::new(),
        }
    }

    /// Whether unfocused windows are dimmed.
    pub fn transparency_active(&self) -> (r: bool)
        ensures
            r == self@.transparency_active,
    {
        self.transparency_active
    }

    /// The opacity given to unfocused windows.
    pub fn opacity(&self) -> (r: Opacity)
        ensures
            r == self@.opacity,
    {
        self.transparency
    }

    /// Whether the window is exempt from dimming.
    pub fn is_blacklisted(&self, id: i64) -> (r: bool)
        ensures
            r == self@.blacklist.contains(id),
    {
        self.blacklist.contains(&id)
    }

    /// Takes an event, changes what the event changes at once, and says what
    /// remains to be done.
    pub fn receive(&mut self, event: Event) -> (plan: Plan)
        ensures
            final(self)@ =~= state_after(old(self)@, event),
            plan == plan_for(old(self)@, event),
    {
        match event {
            Event::ConfigReloaded(config) => {
                self.transparency = config.opacity;
                if self.transparency_active {
                    Plan::Dim
                } else {
                    Plan::Idle
                }
            },
            Event::Manager(I3Event::FocusChanged) => {
                if self.transparency_active {
                    Plan::Dim
                } else {
                    Plan::Idle
                }
            },
            Event::Manager(I3Event::Shutdown) => Plan::Quit,
            Event::Manager(I3Event::CloseWindow(id)) => {
                self.blacklist.remove(&id);
                Plan::Idle
            },
            Event::Control(Cmd::Disable) => {
                self.transparency_active = false;
                Plan::Restore
            },
            Event::Control(Cmd::Enable) => {
                self.transparency_active = true;
                Plan::Dim
            },
            Event::Control(Cmd::Toggle) => {
                self.transparency_active = !self.transparency_active;
                if self.transparency_active {
                    Plan::Dim
                } else {
                    Plan::Restore
                }
            },
            Event::Control(Cmd::FocusBlacklist) => Plan::BlacklistFocused,
            Event::Control(Cmd::FocusBlacklistRemove) => Plan::UnblacklistFocused,
        }
    }

    /// The orders that dim the windows of the tree which lack the focus and
    /// are not exempt, and restore the one that holds it.
    pub fn make_unfocused_windows_transparent(&self, root: Node) -> (r: Vec<Instruction>)
        ensures
            orders_of(r@) == dim_orders(self@, walk(root)),
    {
        let mut orders: Vec<Instruction> = Vec::new();
        if !self.transparency_active {
            return orders;
        }
        let windows = root.windows();
        let mut unfocused: Vec<i64> = Vec::with_capacity(PROBABLE_AMOUNT_OF_WINDOWS);
        let mut focused: Option<i64> = None;
        let mut i: usize = 0;
        proof {
            reveal(Seq::filter);
        }
        while i < windows.len()
            invariant
                i <= windows.len(),
                unfocused@ == dim_targets(windows@.take(i as int), self.blacklist@),
                focused == last_focused(windows@.take(i as int)),
            decreases windows.len() - i,
        {
            let w = windows[i];
            proof {
                reveal(Seq::filter);
                assert(windows@.take(i + 1).drop_last() =~= windows@.take(i as int));
            }
            if w.focused {
                focused = Some(w.id);
            } else if !self.blacklist.contains(&w.id) {
                unfocused.push(w.id);
            }
            i += 1;
        }
        proof {
            assert(windows@.take(windows.len() as int) =~= windows@);
        }
        if let Some(id) = focused {
            orders.push(Instruction::Single { window: id, opacity: Opacity::max() });
        }
        orders.push(Instruction::Batch { windows: unfocused, opacity: self.transparency });
        orders
    }

    /// Carries out a plan on a fresh layout tree: finishes the change of
    /// state and returns the orders to send, in order.
    pub fn carry_out(&mut self, plan: Plan, root: Node) -> (r: Vec<Instruction>)
        ensures
            final(self)@ =~= state_after_plan(old(self)@, plan, walk(root)),
            orders_of(r@) == orders_for(old(self)@, plan, walk(root)),
    {
        match plan {
            Plan::Dim => self.make_unfocused_windows_transparent(root),
            Plan::Restore => {
                let mut orders: Vec<Instruction> = Vec::new();
                orders.push(remove_all_transparency(root));
                orders
            },
            Plan::BlacklistFocused => {
                let windows = root.windows();
                if let Some(id) = find_focused(&windows) {
                    self.blacklist.insert(id);
                }
                let orders: Vec<Instruction> = Vec::new();
                orders
            },
            Plan::UnblacklistFocused => {
                let windows = root.windows();
                if let Some(id) = find_focused(&windows) {
                    self.blacklist.remove(&id);
                }
                let orders: Vec<Instruction> = Vec::new();
                orders
            },
            _ => {
                let orders: Vec<Instruction> = Vec::new();
                orders
            },
        }
    }
}

/// An event together with the windows that an enumeration finds while the
/// event is handled.
pub struct Occurrence {
    pub event: Event,
    pub windows: Seq<Window>,
}

/// The state after an event was handled in full: received, and its plan
/// carried out on the windows found.
pub open spec fn react(s: DaemonState, o: Occurrence) -> DaemonState {
    state_after_plan(state_after(s, o.event), plan_for(s, o.event), o.windows)
}

/// The state after a history of events was handled, the oldest first.
pub open spec fn run(s: DaemonState, history: Seq<Occurrence>) -> DaemonState
    decreases history.len(),
{
    if history.len() == 0 {
        s
    } else {
        react(run(s, history.drop_last()), history.last())
    }
}

/// The occurrence exempts window `id`: a command to exempt the focused
/// window arrives while `id` is the window found focused.
pub open spec fn exempts(o: Occurrence, id: i64) -> bool {
    o.event == Event::Control(Cmd::FocusBlacklist) && first_focused(o.windows) == Some(id)
}

/// The occurrence lifts the exemption of window `id`: the window is closed,
/// or a command to lift the focused window's exemption arrives while `id` is
/// the window found focused.
pub open spec fn lifts(o: Occurrence, id: i64) -> bool {
    ||| o.event == Event::Manager(I3Event::CloseWindow(id))
    ||| (o.event == Event::Control(Cmd::FocusBlacklistRemove) && first_focused(o.windows) == Some(
        id,
    ))
}

/// The occurrence has a say on whether window `id` is exempt.
pub open spec fn concerns(o: Occurrence, id: i64) -> bool {
    exempts(o, id) || lifts(o, id)
}

/// One occurrence decides the exemption of the windows that it concerns and
/// leaves that of all others as it was. The close of a window ends its
/// exemption whatever went before.
pub proof fn lemma_react_blacklist(s: DaemonState, o: Occurrence, id: i64)
    ensures
        exempts(o, id) ==> react(s, o).blacklist.contains(id),
        lifts(o, id) ==> !react(s, o).blacklist.contains(id),
        !concerns(o, id) ==> (react(s, o).blacklist.contains(id) <==> s.blacklist.contains(id)),
        o.event == Event::Manager(I3Event::CloseWindow(id)) ==> !react(s, o).blacklist.contains(id),
{
}

/// After any history, a window is exempt exactly when the last occurrence
/// that concerned it exempted it.
pub proof fn lemma_blacklist_follows_last_operation(
    s: DaemonState,
    history: Seq<Occurrence>,
    id: i64,
    last: int,
)
    requires
        0 <= last < history.len(),
        concerns(history[last], id),
        forall|j: int| last < j < history.len() ==> !concerns(#[trigger] history[j], id),
    ensures
        run(s, history).blacklist.contains(id) <==> exempts(history[last], id),
    decreases history.len(),
{
    let earlier = history.drop_last();
    lemma_react_blacklist(run(s, earlier), history.last(), id);
    if last < history.len() - 1 {
        lemma_blacklist_follows_last_operation(s, earlier, id, last);
    }
}

/// A history that never concerns a window leaves its exemption as it was.
pub proof fn lemma_blacklist_untouched(s: DaemonState, history: Seq<Occurrence>, id: i64)
    requires
        forall|j: int| 0 <= j < history.len() ==> !concerns(#[trigger] history[j], id),
    ensures
        run(s, history).blacklist.contains(id) <==> s.blacklist.contains(id),
    decreases history.len(),
{
    if history.len() > 0 {
        let earlier = history.drop_last();
        lemma_blacklist_untouched(s, earlier, id);
        lemma_react_blacklist(run(s, earlier), history.last(), id);
    }
}

/// A daemon that starts with no window exempt only ever exempts windows that
/// a command exempted.
pub proof fn lemma_blacklisted_was_exempted(config: Config, history: Seq<Occurrence>, id: i64)
    requires
        run(initial_state(config), history).blacklist.contains(id),
    ensures
        exists|i: int| 0 <= i < history.len() && exempts(#[trigger] history[i], id),
    decreases history.len(),
{
    if history.len() > 0 {
        let earlier = history.drop_last();
        lemma_react_blacklist(run(initial_state(config), earlier), history.last(), id);
        if !exempts(history.last(), id) {
            lemma_blacklisted_was_exempted(config, earlier, id);
            let i = choose|i: int| 0 <= i < earlier.len() && exempts(#[trigger] earlier[i], id);
            assert(exempts(history[i], id));
        }
    }
}

/// Disabling twice in a row leaves the state that disabling once leaves, and
/// asks for the same orders on the same windows.
pub proof fn lemma_disable_is_idempotent(s: DaemonState, first: Seq<Window>, second: Seq<Window>)
    ensures
        react(
            react(s, Occurrence { event: Event::Control(Cmd::Disable), windows: first }),
            Occurrence { event: Event::Control(Cmd::Disable), windows: second },
        ) =~= react(s, Occurrence { event: Event::Control(Cmd::Disable), windows: first }),
        plan_for(
            react(s, Occurrence { event: Event::Control(Cmd::Disable), windows: first }),
            Event::Control(Cmd::Disable),
        ) == plan_for(s, Event::Control(Cmd::Disable)),
        !react(
            s,
            Occurrence { event: Event::Control(Cmd::Disable), windows: first },
        ).transparency_active,
{
}

/// Lifting the exemption of the focused window changes nothing when no
/// window is focused or the focused window is not exempt.
pub proof fn lemma_unblacklist_without_effect(s: DaemonState, windows: Seq<Window>)
    requires
        match first_focused(windows) {
            Some(id) => !s.blacklist.contains(id),
            None => true,
        },
    ensures
        react(s, Occurrence { event: Event::Control(Cmd::FocusBlacklistRemove), windows })
            =~= s,
        orders_for(s, plan_for(s, Event::Control(Cmd::FocusBlacklistRemove)), windows)
            =~= Seq::<Order>::empty(),
{
}

/// Toggling twice in a row leaves the state as it was.
pub proof fn lemma_toggle_twice(s: DaemonState, first: Seq<Window>, second: Seq<Window>)
    ensures
        react(
            react(s, Occurrence { event: Event::Control(Cmd::Toggle), windows: first }),
            Occurrence { event: Event::Control(Cmd::Toggle), windows: second },
        ) =~= s,
{
}

/// Windows are dimmed only while dimming is on, and restored as a whole only
/// while it is off. Nothing but the shutdown of the window manager ends the
/// event loop.
pub proof fn lemma_plan_fits_state(s: DaemonState, event: Event)
    ensures
        plan_for(s, event) == Plan::Dim ==> state_after(s, event).transparency_active,
        plan_for(s, event) == Plan::Restore ==> !state_after(s, event).transparency_active,
        plan_for(s, event) == Plan::Quit <==> event == Event::Manager(I3Event::Shutdown),
{
}

/// A plan that needs no layout tree changes nothing and sends nothing when
/// it is carried out.
pub proof fn lemma_plans_without_tree_are_done(s: DaemonState, plan: Plan, windows: Seq<Window>)
    requires
        !plan.needs_tree(),
    ensures
        state_after_plan(s, plan, windows) == s,
        orders_for(s, plan, windows) == Seq::<Order>::empty(),
{
}

/// The windows that are dimmed are the open windows that lack the focus and
/// are not exempt, all of them and no others.
pub proof fn lemma_dim_targets(windows: Seq<Window>, blacklist: Set<i64>, id: i64)
    ensures
        dim_targets(windows, blacklist).contains(id) <==> (!blacklist.contains(id) && exists|
            i: int,
        |
            0 <= i < windows.len() && (#[trigger] windows[i]).id == id && !windows[i].focused),
    decreases windows.len(),
{
    reveal(Seq::filter);
    if windows.len() > 0 {
        let rest = windows.drop_last();
        let last = windows.last();
        let kept = rest.filter(dimmable(blacklist));
        lemma_dim_targets(rest, blacklist, id);
        if dim_targets(windows, blacklist).contains(id) {
            let k = choose|k: int|
                0 <= k < dim_targets(windows, blacklist).len() && dim_targets(
                    windows,
                    blacklist,
                )[k] == id;
            if k < kept.len() {
                assert(dim_targets(rest, blacklist)[k] == id);
                let i = choose|i: int|
                    0 <= i < rest.len() && (#[trigger] rest[i]).id == id && !rest[i].focused;
                assert(windows[i] == rest[i]);
            } else {
                assert(windows[windows.len() - 1] == last);
            }
        }
        if !blacklist.contains(id) && exists|i: int|
            0 <= i < windows.len() && (#[trigger] windows[i]).id == id && !windows[i].focused {
            let i = choose|i: int|
                0 <= i < windows.len() && (#[trigger] windows[i]).id == id && !windows[i].focused;
            if i < rest.len() {
                assert(rest[i] == windows[i]);
                let k = choose|k: int|
                    0 <= k < dim_targets(rest, blacklist).len() && dim_targets(rest, blacklist)[k]
                        == id;
                assert(dim_targets(windows, blacklist)[k] == id);
            } else {
                assert(dim_targets(windows, blacklist)[kept.len() as int] == id);
            }
        }
    }
}

/// Restoring addresses every open window, in visiting order.
pub proof fn lemma_restore_addresses_all(windows: Seq<Window>)
    ensures
        ids(windows).len() == windows.len(),
        forall|i: int| 0 <= i < windows.len() ==> ids(windows)[i] == (#[trigger] windows[i]).id,
{
}

/// Only a reloaded configuration changes the live opacity, and it becomes
/// the configured one.
pub proof fn lemma_opacity_follows_config(s: DaemonState, o: Occurrence)
    ensures
        react(s, o).opacity == match o.event {
            Event::ConfigReloaded(config) => config.opacity,
            _ => s.opacity,
        },
{
}

} // verus!
