//! The live-reload watcher: what it does with each thing that happens
//! while it watches the served folder for one open page.

use vstd::prelude::*;

use crate::websocket::{reload_message, text_frame_of};

verus! {

/// A notice from the file-system watcher (debounced).
#[derive(Clone, Copy, PartialEq, Eq, Structural)]
pub enum WatchEvent {
    /// A file is about to be written.
    NoticeWrite,
    /// A file is about to be removed.
    NoticeRemove,
    /// A file was created.
    Create,
    /// A file was written.
    Write,
    /// A file's permissions changed.
    Chmod,
    /// A file was removed.
    Remove,
    /// A file was renamed.
    Rename,
    /// The watcher lost events and rescanned.
    Rescan,
    /// The watcher failed.
    Error,
}

/// What happens while a page is watched.
#[derive(Clone, Copy, PartialEq, Eq, Structural)]
pub enum WatchInput {
    /// The watcher reported a notice.
    Notice(WatchEvent),
    /// Receiving from the watcher failed.
    ReceiveFailed,
    /// The reload frame was sent to the page.
    Sent,
    /// Sending the reload frame failed: the page has gone.
    SendFailed,
}

/// What the watcher does next.
#[derive(Clone, Copy, PartialEq, Eq, Structural)]
pub enum WatchStep {
    /// Send the reload frame to the page.
    SendReload,
    /// Go on watching.
    Continue,
    /// Report the receive error, then go on watching.
    Report,
    /// Stop watching: the page has gone.
    Stop,
    /// Give up: the watcher failed.
    Abort,
}

/// Whether a notice changes what a page shows: files created, written or
/// given new permissions do; removals and renames do not (yet).
pub open spec fn refreshes(event: WatchEvent) -> bool {
    event is Create || event is Write || event is Chmod
}

/// The next step of the watcher for one page.
pub open spec fn watch_step_of(input: WatchInput) -> WatchStep {
    match input {
        WatchInput::Notice(event) => if event is Error {
            WatchStep::Abort
        } else if refreshes(event) {
            WatchStep::SendReload
        } else {
            WatchStep::Continue
        },
        WatchInput::ReceiveFailed => WatchStep::Report,
        WatchInput::Sent => WatchStep::Continue,
        WatchInput::SendFailed => WatchStep::Stop,
    }
}

/// The next step of the watcher for one page.
pub fn watch_step(input: WatchInput) -> (step: WatchStep)
    ensures
        step == watch_step_of(input),
        step is SendReload <==> (input matches WatchInput::Notice(e) && refreshes(e)),
        step is Abort <==> input == WatchInput::Notice(WatchEvent::Error),
        step is Report <==> input is ReceiveFailed,
        step is Stop <==> input is SendFailed,
{
    match input {
        WatchInput::Notice(event) => match event {
            WatchEvent::NoticeWrite | WatchEvent::NoticeRemove | WatchEvent::Remove
            | WatchEvent::Rename | WatchEvent::Rescan => WatchStep::Continue,
            WatchEvent::Create | WatchEvent::Write | WatchEvent::Chmod => WatchStep::SendReload,
            WatchEvent::Error => WatchStep::Abort,
        },
        WatchInput::ReceiveFailed => WatchStep::Report,
        WatchInput::Sent => WatchStep::Continue,
        WatchInput::SendFailed => WatchStep::Stop,
    }
}

/// The bytes a page receives while the watcher takes the notices `events`
/// in turn, each send succeeding: the reload frame for each notice that
/// calls for one, and nothing more once the watcher gives up.
pub open spec fn frames_for(events: Seq<WatchEvent>) -> Seq<u8>
    decreases events.len(),
{
    if events.len() == 0 {
        Seq::<u8>::empty()
    } else {
        match watch_step_of(WatchInput::Notice(events[0])) {
            WatchStep::SendReload => text_frame_of(reload_message()) + frames_for(events.drop_first()),
            WatchStep::Abort => Seq::<u8>::empty(),
            _ => frames_for(events.drop_first()),
        }
    }
}

/// How many of the notices change what a page shows.
pub open spec fn refresh_count(events: Seq<WatchEvent>) -> nat
    decreases events.len(),
{
    if events.len() == 0 {
        0
    } else {
        (if refreshes(events[0]) {
            1nat
        } else {
            0nat
        }) + refresh_count(events.drop_first())
    }
}

/// `n` copies of `bytes`, one after another.
pub open spec fn repeated(bytes: Seq<u8>, n: nat) -> Seq<u8>
    decreases n,
{
    if n == 0 {
        Seq::<u8>::empty()
    } else {
        bytes + repeated(bytes, (n - 1) as nat)
    }
}

/// One reload per change: while the watcher fails no time, a page receives
/// the reload frame once for each notice of a created, written or
/// re-permissioned file, and nothing for the other notices.
pub proof fn lemma_one_frame_per_change(events: Seq<WatchEvent>)
    requires
        forall|i: int| 0 <= i < events.len() ==> !(#[trigger] events[i] is Error),
    ensures
        frames_for(events) == repeated(text_frame_of(reload_message()), refresh_count(events)),
    decreases events.len(),
{
    if events.len() > 0 {
        assert forall|i: int| 0 <= i < events.drop_first().len() implies !(
        #[trigger] events.drop_first()[i] is Error) by {
            assert(events.drop_first()[i] == events[i + 1]);
        }
        lemma_one_frame_per_change(events.drop_first());
        assert(!(events[0] is Error));
    }
}

/// The watcher's step for every input: a reload for a created, written or
/// re-permissioned file; nothing for a pending write or removal, a removal,
/// a rename or a rescan; giving up on a watcher error; a report when
/// receiving fails; stopping when the page has gone.
pub proof fn lemma_watch_steps()
    ensures
        watch_step_of(WatchInput::Notice(WatchEvent::Create)) == WatchStep::SendReload,
        watch_step_of(WatchInput::Notice(WatchEvent::Write)) == WatchStep::SendReload,
        watch_step_of(WatchInput::Notice(WatchEvent::Chmod)) == WatchStep::SendReload,
        watch_step_of(WatchInput::Notice(WatchEvent::NoticeWrite)) == WatchStep::Continue,
        watch_step_of(WatchInput::Notice(WatchEvent::NoticeRemove)) == WatchStep::Continue,
        watch_step_of(WatchInput::Notice(WatchEvent::Remove)) == WatchStep::Continue,
        watch_step_of(WatchInput::Notice(WatchEvent::Rename)) == WatchStep::Continue,
        watch_step_of(WatchInput::Notice(WatchEvent::Rescan)) == WatchStep::Continue,
        watch_step_of(WatchInput::Notice(WatchEvent::Error)) == WatchStep::Abort,
        watch_step_of(WatchInput::ReceiveFailed) == WatchStep::Report,
        watch_step_of(WatchInput::Sent) == WatchStep::Continue,
        watch_step_of(WatchInput::SendFailed) == WatchStep::Stop,
{
}

} // verus!
