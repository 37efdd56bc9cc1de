use devserver::watch::{watch_step, WatchEvent, WatchInput, WatchStep};

#[test]
fn changes_that_reload() {
    for e in [WatchEvent::Create, WatchEvent::Write, WatchEvent::Chmod] {
        assert!(watch_step(WatchInput::Notice(e)) == WatchStep::SendReload);
    }
}

#[test]
fn changes_that_do_not_reload() {
    for e in [
        WatchEvent::NoticeWrite,
        WatchEvent::NoticeRemove,
        WatchEvent::Remove,
        WatchEvent::Rename,
        WatchEvent::Rescan,
    ] {
        assert!(watch_step(WatchInput::Notice(e)) == WatchStep::Continue);
    }
}

#[test]
fn failures() {
    assert!(watch_step(WatchInput::Notice(WatchEvent::Error)) == WatchStep::Abort);
    assert!(watch_step(WatchInput::ReceiveFailed) == WatchStep::Report);
    assert!(watch_step(WatchInput::SendFailed) == WatchStep::Stop);
    assert!(watch_step(WatchInput::Sent) == WatchStep::Continue);
}

#[test]
fn one_reload_per_change() {
    let events = [
        WatchEvent::NoticeWrite,
        WatchEvent::Write,
        WatchEvent::Create,
        WatchEvent::Rename,
        WatchEvent::Chmod,
        WatchEvent::Remove,
    ];
    let reloads = events
        .iter()
        .filter(|e| watch_step(WatchInput::Notice(**e)) == WatchStep::SendReload)
        .count();
    assert_eq!(reloads, 3);
}
