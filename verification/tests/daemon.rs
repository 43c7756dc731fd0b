use transparentd::cmd::Cmd;
use transparentd::command::Instruction;
use transparentd::config::{Config, Opacity};
use transparentd::daemon::{remove_all_transparency, Daemon, Event, Plan};
use transparentd::i3::{I3Event, Node};

fn opacity(x: f64) -> Opacity {
    Opacity::new(x.to_bits()).unwrap()
}

fn daemon(active: bool, x: f64) -> Daemon {
    Daemon::new(Config { transparency_at_start: active, opacity: opacity(x) })
}

fn leaf(id: i64, focused: bool) -> Node {
    Node { id, focused, nodes: vec![] }
}

/// Window 1 holds the focus, window 2 does not.
fn two_windows() -> Node {
    Node { id: 1, focused: true, nodes: vec![leaf(2, false)] }
}

/// A workspace 10 with the windows 11, 12 and 13, of which 12 is focused.
fn workspace() -> Node {
    Node { id: 10, focused: false, nodes: vec![leaf(11, false), leaf(12, true), leaf(13, false)] }
}

fn rendered(order: &Instruction) -> String {
    order.command(&format!("{:3}", f64::from_bits(order.opacity().bits())))
}

fn handle(d: &mut Daemon, event: Event, tree: Node) -> Vec<Instruction> {
    let plan = d.receive(event);
    if plan.needs_tree() {
        d.carry_out(plan, tree)
    } else {
        vec![]
    }
}

#[test]
fn new_takes_flag_and_opacity_and_exempts_nothing() {
    let d = daemon(true, 0.8);
    assert!(d.transparency_active());
    assert_eq!(d.opacity(), opacity(0.8));
    assert!(!d.is_blacklisted(1));
    let e = daemon(false, 0.25);
    assert!(!e.transparency_active());
    assert_eq!(e.opacity(), opacity(0.25));
}

#[test]
fn focus_change_restores_the_focused_and_dims_the_other() {
    let mut d = daemon(true, 0.8);
    let plan = d.receive(Event::Manager(I3Event::FocusChanged));
    assert_eq!(plan, Plan::Dim);
    let orders = d.carry_out(plan, two_windows());
    assert_eq!(
        orders,
        vec![
            Instruction::Single { window: 1, opacity: Opacity::max() },
            Instruction::Batch { windows: vec![2], opacity: opacity(0.8) },
        ]
    );
    assert_eq!(rendered(&orders[0]), "[con_id=1] opacity   1");
    assert_eq!(rendered(&orders[1]), "[con_id=2] opacity 0.8;");
}

#[test]
fn focus_change_does_nothing_while_dimming_is_off() {
    let mut d = daemon(false, 0.8);
    assert_eq!(d.receive(Event::Manager(I3Event::FocusChanged)), Plan::Idle);
    assert!(d.make_unfocused_windows_transparent(two_windows()).is_empty());
    assert!(d.carry_out(Plan::Dim, two_windows()).is_empty());
}

#[test]
fn dimming_goes_in_visiting_order_and_spares_the_blacklist() {
    let mut d = daemon(true, 0.5);
    let tree = Node {
        id: 10,
        focused: false,
        nodes: vec![leaf(11, false), leaf(12, true), leaf(13, false)],
    };
    assert!(handle(&mut d, Event::Control(Cmd::FocusBlacklist), tree).is_empty());
    assert!(d.is_blacklisted(12));
    let moved = Node {
        id: 10,
        focused: false,
        nodes: vec![leaf(11, true), leaf(12, false), leaf(13, false)],
    };
    let orders = handle(&mut d, Event::Manager(I3Event::FocusChanged), moved);
    assert_eq!(
        orders,
        vec![
            Instruction::Single { window: 11, opacity: Opacity::max() },
            Instruction::Batch { windows: vec![10, 13], opacity: opacity(0.5) },
        ]
    );
}

#[test]
fn a_focused_window_is_restored_even_when_blacklisted() {
    let mut d = daemon(true, 0.5);
    handle(&mut d, Event::Control(Cmd::FocusBlacklist), workspace());
    let orders = handle(&mut d, Event::Manager(I3Event::FocusChanged), workspace());
    assert_eq!(
        orders,
        vec![
            Instruction::Single { window: 12, opacity: Opacity::max() },
            Instruction::Batch { windows: vec![10, 13, 11], opacity: opacity(0.5) },
        ]
    );
}

#[test]
fn the_last_focused_container_is_the_one_restored() {
    let d = daemon(true, 0.5);
    let tree = Node { id: 1, focused: true, nodes: vec![leaf(2, true), leaf(3, false)] };
    let orders = d.make_unfocused_windows_transparent(tree);
    assert_eq!(
        orders,
        vec![
            Instruction::Single { window: 2, opacity: Opacity::max() },
            Instruction::Batch { windows: vec![3], opacity: opacity(0.5) },
        ]
    );
}

#[test]
fn without_focus_only_the_batch_is_sent() {
    let d = daemon(true, 0.5);
    let tree = Node { id: 1, focused: false, nodes: vec![leaf(2, false)] };
    assert_eq!(
        d.make_unfocused_windows_transparent(tree),
        vec![Instruction::Batch { windows: vec![1, 2], opacity: opacity(0.5) }]
    );
}

#[test]
fn a_lone_focused_window_still_gets_an_empty_batch() {
    let d = daemon(true, 0.5);
    let orders = d.make_unfocused_windows_transparent(leaf(1, true));
    assert_eq!(
        orders,
        vec![
            Instruction::Single { window: 1, opacity: Opacity::max() },
            Instruction::Batch { windows: vec![], opacity: opacity(0.5) },
        ]
    );
    assert_eq!(rendered(&orders[1]), "");
}

#[test]
fn disable_restores_every_window_blacklisted_or_not() {
    let mut d = daemon(true, 0.8);
    handle(&mut d, Event::Control(Cmd::FocusBlacklist), workspace());
    assert!(d.is_blacklisted(12));
    let plan = d.receive(Event::Control(Cmd::Disable));
    assert_eq!(plan, Plan::Restore);
    assert!(!d.transparency_active());
    let orders = d.carry_out(plan, workspace());
    assert_eq!(
        orders,
        vec![Instruction::Batch { windows: vec![10, 13, 12, 11], opacity: Opacity::max() }]
    );
    assert_eq!(
        rendered(&orders[0]),
        "[con_id=10] opacity   1;[con_id=13] opacity   1;[con_id=12] opacity   1;[con_id=11] opacity   1;"
    );
    assert!(d.is_blacklisted(12));
}

#[test]
fn remove_all_transparency_addresses_all_in_one_batch() {
    assert_eq!(
        remove_all_transparency(two_windows()),
        Instruction::Batch { windows: vec![1, 2], opacity: Opacity::max() }
    );
}

#[test]
fn disable_twice_is_disable_once() {
    let mut once = daemon(true, 0.8);
    let first = handle(&mut once, Event::Control(Cmd::Disable), workspace());
    let mut twice = daemon(true, 0.8);
    handle(&mut twice, Event::Control(Cmd::Disable), workspace());
    let second = handle(&mut twice, Event::Control(Cmd::Disable), workspace());
    assert_eq!(first, second);
    assert_eq!(once.transparency_active(), twice.transparency_active());
    assert!(!twice.transparency_active());
    assert_eq!(once.opacity(), twice.opacity());
    assert_eq!(once.is_blacklisted(12), twice.is_blacklisted(12));
}

#[test]
fn enable_turns_dimming_on_and_dims() {
    let mut d = daemon(false, 0.8);
    let plan = d.receive(Event::Control(Cmd::Enable));
    assert_eq!(plan, Plan::Dim);
    assert!(d.transparency_active());
    let orders = d.carry_out(plan, two_windows());
    assert_eq!(orders.len(), 2);
    assert_eq!(orders[1], Instruction::Batch { windows: vec![2], opacity: opacity(0.8) });
}

#[test]
fn toggle_twice_returns_to_active_and_dims_again() {
    let mut d = daemon(true, 0.8);
    let first = d.receive(Event::Control(Cmd::Toggle));
    assert_eq!(first, Plan::Restore);
    assert!(!d.transparency_active());
    let restored = d.carry_out(first, two_windows());
    assert_eq!(
        restored,
        vec![Instruction::Batch { windows: vec![1, 2], opacity: Opacity::max() }]
    );
    let second = d.receive(Event::Control(Cmd::Toggle));
    assert_eq!(second, Plan::Dim);
    assert!(d.transparency_active());
    let dimmed = d.carry_out(second, two_windows());
    assert_eq!(
        dimmed,
        vec![
            Instruction::Single { window: 1, opacity: Opacity::max() },
            Instruction::Batch { windows: vec![2], opacity: opacity(0.8) },
        ]
    );
    assert_eq!(d.opacity(), opacity(0.8));
}

#[test]
fn blacklist_follows_the_last_operation() {
    let mut d = daemon(true, 0.8);
    handle(&mut d, Event::Control(Cmd::FocusBlacklist), workspace());
    assert!(d.is_blacklisted(12));
    handle(&mut d, Event::Control(Cmd::FocusBlacklistRemove), workspace());
    assert!(!d.is_blacklisted(12));
    handle(&mut d, Event::Control(Cmd::FocusBlacklist), workspace());
    handle(&mut d, Event::Control(Cmd::FocusBlacklist), workspace());
    assert!(d.is_blacklisted(12));
    assert!(!d.is_blacklisted(11));
    assert!(!d.is_blacklisted(10));
}

#[test]
fn closing_a_window_clears_it_from_the_blacklist() {
    let mut d = daemon(true, 0.8);
    handle(&mut d, Event::Control(Cmd::FocusBlacklist), workspace());
    handle(&mut d, Event::Control(Cmd::FocusBlacklist), two_windows());
    assert!(d.is_blacklisted(12));
    assert!(d.is_blacklisted(1));
    assert_eq!(d.receive(Event::Manager(I3Event::CloseWindow(12))), Plan::Idle);
    assert!(!d.is_blacklisted(12));
    assert!(d.is_blacklisted(1));
    assert_eq!(d.receive(Event::Manager(I3Event::CloseWindow(12))), Plan::Idle);
    assert!(!d.is_blacklisted(12));
    assert_eq!(d.receive(Event::Manager(I3Event::CloseWindow(99))), Plan::Idle);
    assert!(d.is_blacklisted(1));
}

#[test]
fn removing_without_focus_or_without_entry_changes_nothing() {
    let mut d = daemon(true, 0.8);
    handle(&mut d, Event::Control(Cmd::FocusBlacklist), workspace());
    let unfocused = Node { id: 10, focused: false, nodes: vec![leaf(12, false)] };
    assert!(handle(&mut d, Event::Control(Cmd::FocusBlacklistRemove), unfocused).is_empty());
    assert!(d.is_blacklisted(12));
    assert!(handle(&mut d, Event::Control(Cmd::FocusBlacklistRemove), two_windows()).is_empty());
    assert!(d.is_blacklisted(12));
    assert!(!d.is_blacklisted(1));
    assert!(d.transparency_active());
    assert_eq!(d.opacity(), opacity(0.8));
}

#[test]
fn blacklisting_without_focus_changes_nothing() {
    let mut d = daemon(true, 0.8);
    let unfocused = Node { id: 10, focused: false, nodes: vec![leaf(12, false)] };
    assert!(handle(&mut d, Event::Control(Cmd::FocusBlacklist), unfocused).is_empty());
    assert!(!d.is_blacklisted(10));
    assert!(!d.is_blacklisted(12));
}

#[test]
fn blacklist_commands_go_by_the_first_focused_container() {
    let mut d = daemon(true, 0.8);
    let tree = Node { id: 1, focused: true, nodes: vec![leaf(2, true)] };
    handle(&mut d, Event::Control(Cmd::FocusBlacklist), tree);
    assert!(d.is_blacklisted(1));
    assert!(!d.is_blacklisted(2));
}

#[test]
fn reloaded_config_replaces_the_opacity_and_dims_at_once() {
    let mut d = daemon(true, 0.8);
    let config = Config { transparency_at_start: false, opacity: opacity(0.5) };
    let plan = d.receive(Event::ConfigReloaded(config));
    assert_eq!(plan, Plan::Dim);
    assert_eq!(d.opacity(), opacity(0.5));
    assert!(d.transparency_active());
    let orders = d.carry_out(plan, two_windows());
    assert_eq!(orders[1], Instruction::Batch { windows: vec![2], opacity: opacity(0.5) });
}

#[test]
fn reloaded_config_is_kept_while_dimming_is_off() {
    let mut d = daemon(false, 0.8);
    let config = Config { transparency_at_start: true, opacity: opacity(0.5) };
    assert_eq!(d.receive(Event::ConfigReloaded(config)), Plan::Idle);
    assert_eq!(d.opacity(), opacity(0.5));
    assert!(!d.transparency_active());
}

#[test]
fn shutdown_ends_the_loop_and_changes_nothing() {
    let mut d = daemon(true, 0.8);
    let plan = d.receive(Event::Manager(I3Event::Shutdown));
    assert_eq!(plan, Plan::Quit);
    assert!(!plan.needs_tree());
    assert!(d.transparency_active());
    assert!(d.carry_out(plan, two_windows()).is_empty());
}

#[test]
fn only_plans_on_windows_need_a_tree() {
    assert!(!Plan::Idle.needs_tree());
    assert!(!Plan::Quit.needs_tree());
    assert!(Plan::Dim.needs_tree());
    assert!(Plan::Restore.needs_tree());
    assert!(Plan::BlacklistFocused.needs_tree());
    assert!(Plan::UnblacklistFocused.needs_tree());
}
