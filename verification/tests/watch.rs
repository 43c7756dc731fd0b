use transparentd::config::{Config, Opacity};
use transparentd::daemon::{Daemon, Event, Plan};
use transparentd::watch::{
    count_deletions, is_deletion, watch_mask, Answer, Reaction, Request, Watcher, CLOSE_WRITE,
    DELETE_SELF, RETRY_SECONDS,
};

fn config(x: f64) -> Config {
    Config { transparency_at_start: true, opacity: Opacity::new(x.to_bits()).unwrap() }
}

fn quiet(next: Request) -> Reaction {
    Reaction { warn: None, publish: None, next }
}

fn watch() -> Request {
    Request::Watch { mask: 0x408 }
}

fn waiting() -> Watcher {
    let (mut w, _) = Watcher::start();
    w.step(Answer::Watched(true));
    w
}

#[test]
fn masks_are_those_of_the_kernel() {
    assert_eq!(CLOSE_WRITE, inotify::WatchMask::CLOSE_WRITE.bits());
    assert_eq!(DELETE_SELF, inotify::WatchMask::DELETE_SELF.bits());
    assert_eq!(DELETE_SELF, inotify::EventMask::DELETE_SELF.bits());
    assert_eq!(watch_mask(), 0x408);
    assert_eq!(
        watch_mask(),
        (inotify::WatchMask::CLOSE_WRITE | inotify::WatchMask::DELETE_SELF).bits()
    );
    assert_eq!(RETRY_SECONDS, 10);
}

#[test]
fn deletions_are_told_by_their_bit() {
    assert!(is_deletion(0x400));
    assert!(is_deletion(0x408));
    assert!(is_deletion(0xffff_ffff));
    assert!(!is_deletion(0));
    assert!(!is_deletion(0x8));
    assert!(!is_deletion(0x200));
    assert!(!is_deletion(0x8000));
    assert!(is_deletion(inotify::EventMask::DELETE_SELF.bits()));
    assert!(!is_deletion(inotify::EventMask::CLOSE_WRITE.bits()));
    assert!(!is_deletion(inotify::EventMask::IGNORED.bits()));
}

#[test]
fn deletions_are_counted() {
    assert_eq!(count_deletions(&vec![]), 0);
    assert_eq!(count_deletions(&vec![0x8, 0x8000]), 0);
    assert_eq!(count_deletions(&vec![0x400, 0x8, 0x400, 0x8400]), 3);
}

#[test]
fn start_puts_a_first_watch_and_then_waits() {
    let (mut w, first) = Watcher::start();
    assert_eq!(w, Watcher::Arming);
    assert_eq!(first, watch());
    assert_eq!(w.pending(), watch());
    assert_eq!(w.step(Answer::Watched(false)), quiet(Request::Read));
    assert_eq!(w, Watcher::Waiting);
    assert_eq!(waiting(), Watcher::Waiting);
}

#[test]
fn a_written_file_is_loaded_and_published() {
    let mut w = waiting();
    assert_eq!(w.step(Answer::Notified(vec![0x8])), quiet(Request::Load));
    assert_eq!(w, Watcher::Loading);
    assert_eq!(
        w.step(Answer::Loaded(Ok(config(0.3)))),
        Reaction { warn: None, publish: Some(config(0.3)), next: Request::Read }
    );
    assert_eq!(w, Watcher::Waiting);
}

#[test]
fn a_file_that_cannot_be_loaded_is_warned_of_and_not_published() {
    let mut w = waiting();
    w.step(Answer::Notified(vec![0x8]));
    assert_eq!(
        w.step(Answer::Loaded(Err("expected a float".to_string()))),
        Reaction { warn: Some("expected a float".to_string()), publish: None, next: Request::Read }
    );
    assert_eq!(w, Watcher::Waiting);
}

#[test]
fn a_failed_read_is_warned_of_and_read_again() {
    let mut w = waiting();
    assert_eq!(
        w.step(Answer::ReadFailed("interrupted".to_string())),
        Reaction { warn: Some("interrupted".to_string()), publish: None, next: Request::Read }
    );
    assert_eq!(w, Watcher::Waiting);
}

#[test]
fn a_deleted_file_is_watched_anew_before_it_is_loaded() {
    let mut w = waiting();
    assert_eq!(w.step(Answer::Notified(vec![0x400, 0x8000])), quiet(watch()));
    assert_eq!(w, Watcher::Rearming { deletions: 1, failed: false });
    assert_eq!(w.step(Answer::Watched(true)), quiet(Request::Load));
    assert_eq!(w, Watcher::Loading);
}

#[test]
fn the_second_attempt_follows_at_once_and_later_ones_after_a_sleep() {
    let mut w = waiting();
    w.step(Answer::Notified(vec![0x400]));
    assert_eq!(w.step(Answer::Watched(false)), quiet(watch()));
    assert_eq!(w, Watcher::Rearming { deletions: 1, failed: true });
    assert_eq!(w.step(Answer::Watched(false)), quiet(Request::Sleep { seconds: 10 }));
    assert_eq!(w, Watcher::Sleeping { deletions: 1 });
    assert_eq!(w.step(Answer::Slept), quiet(watch()));
    assert_eq!(w.step(Answer::Watched(false)), quiet(Request::Sleep { seconds: 10 }));
    assert_eq!(w.step(Answer::Slept), quiet(watch()));
    assert_eq!(w.step(Answer::Watched(true)), quiet(Request::Load));
}

#[test]
fn each_deletion_of_a_batch_is_dealt_with() {
    let mut w = waiting();
    w.step(Answer::Notified(vec![0x400, 0x400]));
    assert_eq!(w, Watcher::Rearming { deletions: 2, failed: false });
    assert_eq!(w.step(Answer::Watched(true)), quiet(watch()));
    assert_eq!(w, Watcher::Rearming { deletions: 1, failed: false });
    assert_eq!(w.step(Answer::Watched(false)), quiet(watch()));
    assert_eq!(w.step(Answer::Watched(true)), quiet(Request::Load));
}

#[test]
fn an_answer_to_what_was_not_asked_changes_nothing() {
    let mut w = waiting();
    assert_eq!(w.step(Answer::Slept), quiet(Request::Read));
    assert_eq!(w.step(Answer::Loaded(Ok(config(0.1)))), quiet(Request::Read));
    assert_eq!(w.step(Answer::Watched(true)), quiet(Request::Read));
    assert_eq!(w, Watcher::Waiting);
    let mut l = Watcher::Loading;
    assert_eq!(l.step(Answer::Notified(vec![0x400])), quiet(Request::Load));
    assert_eq!(l.step(Answer::ReadFailed("x".to_string())), quiet(Request::Load));
    assert_eq!(l, Watcher::Loading);
    let mut s = Watcher::Sleeping { deletions: 1 };
    assert_eq!(s.step(Answer::Watched(true)), quiet(Request::Sleep { seconds: 10 }));
}

#[test]
fn deleted_and_rewritten_config_reaches_the_daemon() {
    let mut daemon = Daemon::new(config(0.8));
    let mut w = waiting();
    w.step(Answer::Notified(vec![0x400]));
    w.step(Answer::Watched(false));
    w.step(Answer::Watched(false));
    w.step(Answer::Slept);
    let back = w.step(Answer::Watched(true));
    assert_eq!(back.next, Request::Load);
    let loaded = w.step(Answer::Loaded(Ok(config(0.5))));
    let published = loaded.publish.unwrap();
    assert_eq!(daemon.receive(Event::ConfigReloaded(published)), Plan::Dim);
    assert_eq!(f64::from_bits(daemon.opacity().bits()), 0.5);
    assert_eq!(loaded.next, Request::Read);
}
