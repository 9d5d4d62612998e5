//! The decisions of the updater's check on itself: compare the running
//! updater's SHA-256 with the one the latest release publishes, and when they
//! differ, download the release, verify it, and hand over to a script that
//! replaces the running updater. The caller performs each action and reports
//! what happened as the next event.
use vstd::prelude::*;
use vstd::string::StringExecFns;
use crate::checksum::{listed_sha256, parse_sha256};
use crate::http::{FetchOutcome, HttpStatus, status_line_text};
use crate::naming::{UPDATER_SHA256_URL, UPDATER_DOWNLOAD_URL};
use crate::text::{to_lowercase, lowercase};

verus! {

/// Why the check on the updater itself failed.
#[derive(Debug)]
pub enum SelfUpdateError {
    /// Reading an updater file to hash it failed; the error's text.
    HashFailed(String),
    /// The checksum listing could not be requested; the error's text.
    ChecksumRequestFailed(String),
    /// The checksum listing was answered with this unsuccessful status.
    ChecksumStatus(HttpStatus),
    /// The checksum listing's body could not be read; the error's text.
    ChecksumBodyFailed(String),
    /// The checksum listing holds no SHA-256 digest.
    ChecksumUnparsable,
    /// Downloading the new updater failed; the error's text.
    DownloadFailed(String),
    /// The downloaded updater's SHA-256 differs from the published one.
    ReplacementMismatch,
    /// Writing or starting the replacement script failed; the error's text.
    LaunchFailed(String),
}

/// The start of the message for an unsuccessful checksum-listing status.
pub const CHECKSUM_STATUS_MESSAGE: &'static str = "取得 updater.exe.sha256 失敗：HTTP ";

/// The message for a checksum listing without a digest.
pub const CHECKSUM_UNPARSABLE_MESSAGE: &'static str = "無法解析 updater.exe.sha256";

/// The start of the message for a failed download of the new updater.
pub const DOWNLOAD_FAILED_MESSAGE: &'static str = "下載新版 updater.exe 失敗：";

/// The message for a downloaded updater with the wrong SHA-256.
pub const REPLACEMENT_MISMATCH_MESSAGE: &'static str = "新版 updater.exe SHA-256 驗證失敗！";

/// The text of an error, as the updater reports it: the underlying error's
/// text for failures of reading, requesting and launching; a fixed message
/// (with the status, or the download error's text, where there is one) for
/// the others.
pub open spec fn self_update_error_text(e: SelfUpdateError) -> Seq<char> {
    match e {
        SelfUpdateError::HashFailed(m) => m@,
        SelfUpdateError::ChecksumRequestFailed(m) => m@,
        SelfUpdateError::ChecksumStatus(status) => CHECKSUM_STATUS_MESSAGE@ + status_line_text(
            status@,
        ),
        SelfUpdateError::ChecksumBodyFailed(m) => m@,
        SelfUpdateError::ChecksumUnparsable => CHECKSUM_UNPARSABLE_MESSAGE@,
        SelfUpdateError::DownloadFailed(m) => DOWNLOAD_FAILED_MESSAGE@ + m@,
        SelfUpdateError::ReplacementMismatch => REPLACEMENT_MISMATCH_MESSAGE@,
        SelfUpdateError::LaunchFailed(m) => m@,
    }
}

impl SelfUpdateError {
    /// The error's text (see `self_update_error_text`).
    pub fn message(&self) -> (t: String)
        ensures
            t@ == self_update_error_text(*self),
    {
        match self {
            SelfUpdateError::HashFailed(m) => m.clone(),
            SelfUpdateError::ChecksumRequestFailed(m) => m.clone(),
            SelfUpdateError::ChecksumStatus(status) => {
                let mut t = String::from_str(CHECKSUM_STATUS_MESSAGE);
                let line = status.line();
                t.append(line.as_str());
                t
            },
            SelfUpdateError::ChecksumBodyFailed(m) => m.clone(),
            SelfUpdateError::ChecksumUnparsable => String::from_str(CHECKSUM_UNPARSABLE_MESSAGE),
            SelfUpdateError::DownloadFailed(m) => {
                let mut t = String::from_str(DOWNLOAD_FAILED_MESSAGE);
                t.append(m.as_str());
                t
            },
            SelfUpdateError::ReplacementMismatch => String::from_str(REPLACEMENT_MISMATCH_MESSAGE),
            SelfUpdateError::LaunchFailed(m) => m.clone(),
        }
    }
}

/// Where the check on the updater stands.
#[derive(Debug)]
pub enum SelfUpdate {
    /// Hashing the running updater.
    HashingInstalled,
    /// Fetching the published checksum; the running updater's digest.
    FetchingChecksum { installed: String },
    /// Downloading the published updater; its published digest.
    Downloading { published: String },
    /// Hashing the downloaded updater; the published digest.
    HashingReplacement { published: String },
    /// Deleting the downloaded updater before failing with `error`.
    DiscardingReplacement { error: SelfUpdateError },
    /// Writing and starting the replacement script.
    Launching,
    /// Finished.
    Done,
}

/// What happened when the caller performed the last action.
#[derive(Debug)]
pub enum SelfUpdateEvent {
    /// A file was hashed: its lowercase hexadecimal SHA-256, or the error's text.
    Hashed(Result<String, String>),
    /// The checksum listing was fetched.
    Fetched(FetchOutcome),
    /// The download finished, or failed with the error's text.
    Downloaded(Result<(), String>),
    /// The downloaded file was deleted (or deleting it failed, which is ignored).
    Discarded,
    /// The replacement script was written and started, or failed with the error's text.
    Launched(Result<(), String>),
}

/// What the caller is to do next.
#[derive(Debug)]
pub enum SelfUpdateAction {
    /// Compute the SHA-256 of the running updater's file.
    HashInstalled,
    /// Fetch the checksum listing at `url`.
    FetchChecksum { url: String },
    /// Download the updater at `url` into a new temporary file.
    DownloadReplacement { url: String },
    /// Compute the SHA-256 of the downloaded file.
    HashReplacement,
    /// Delete the downloaded file, ignoring any error.
    DiscardReplacement,
    /// Write the replacement script and start it.
    LaunchReplacement,
    /// Stop: `Ok(true)` when the updater is being replaced and must exit,
    /// `Ok(false)` when it is already the published one.
    Finish { result: Result<bool, SelfUpdateError> },
    /// Nothing: the event does not answer the action the state waits on.
    Idle,
}

/// One step of the check: in state `s`, on event `e`, the check moves to
/// `s2` and asks for action `a`.
pub open spec fn self_update_next(
    s: SelfUpdate,
    e: SelfUpdateEvent,
    s2: SelfUpdate,
    a: SelfUpdateAction,
) -> bool {
    match (s, e) {
        (SelfUpdate::HashingInstalled, SelfUpdateEvent::Hashed(Err(m))) => {
            &&& s2 is Done
            &&& a == SelfUpdateAction::Finish { result: Err(SelfUpdateError::HashFailed(m)) }
        },
        (SelfUpdate::HashingInstalled, SelfUpdateEvent::Hashed(Ok(hex))) => {
            &&& s2 matches SelfUpdate::FetchingChecksum { installed } && installed@
                == lowercase(hex@)
            &&& a matches SelfUpdateAction::FetchChecksum { url } && url@ == UPDATER_SHA256_URL@
        },
        (SelfUpdate::FetchingChecksum { installed }, SelfUpdateEvent::Fetched(outcome)) => {
            match outcome {
                FetchOutcome::SendFailed(m) => {
                    &&& s2 is Done
                    &&& a == SelfUpdateAction::Finish {
                        result: Err(SelfUpdateError::ChecksumRequestFailed(m)),
                    }
                },
                FetchOutcome::Status(code) => {
                    &&& s2 is Done
                    &&& a == SelfUpdateAction::Finish {
                        result: Err(SelfUpdateError::ChecksumStatus(code)),
                    }
                },
                FetchOutcome::BodyFailed(m) => {
                    &&& s2 is Done
                    &&& a == SelfUpdateAction::Finish {
                        result: Err(SelfUpdateError::ChecksumBodyFailed(m)),
                    }
                },
                FetchOutcome::Body(text) => {
                    match listed_sha256(text@) {
                        None => {
                            &&& s2 is Done
                            &&& a == SelfUpdateAction::Finish {
                                result: Err(SelfUpdateError::ChecksumUnparsable),
                            }
                        },
                        Some(p) => if installed@ == p {
                            &&& s2 is Done
                            &&& a == SelfUpdateAction::Finish { result: Ok(false) }
                        } else {
                            &&& s2 matches SelfUpdate::Downloading { published } && published@ == p
                            &&& a matches SelfUpdateAction::DownloadReplacement { url } && url@
                                == UPDATER_DOWNLOAD_URL@
                        },
                    }
                },
            }
        },
        (SelfUpdate::Downloading { published }, SelfUpdateEvent::Downloaded(Err(m))) => {
            &&& s2 == SelfUpdate::DiscardingReplacement {
                error: SelfUpdateError::DownloadFailed(m),
            }
            &&& a is DiscardReplacement
        },
        (SelfUpdate::Downloading { published }, SelfUpdateEvent::Downloaded(Ok(()))) => {
            &&& s2 == SelfUpdate::HashingReplacement { published }
            &&& a is HashReplacement
        },
        (SelfUpdate::HashingReplacement { published }, SelfUpdateEvent::Hashed(Err(m))) => {
            &&& s2 is Done
            &&& a == SelfUpdateAction::Finish { result: Err(SelfUpdateError::HashFailed(m)) }
        },
        (SelfUpdate::HashingReplacement { published }, SelfUpdateEvent::Hashed(Ok(hex))) => {
            if lowercase(hex@) == published@ {
                &&& s2 is Launching
                &&& a is LaunchReplacement
            } else {
                &&& s2 == SelfUpdate::DiscardingReplacement {
                    error: SelfUpdateError::ReplacementMismatch,
                }
                &&& a is DiscardReplacement
            }
        },
        (SelfUpdate::DiscardingReplacement { error }, SelfUpdateEvent::Discarded) => {
            &&& s2 is Done
            &&& a == SelfUpdateAction::Finish { result: Err(error) }
        },
        (SelfUpdate::Launching, SelfUpdateEvent::Launched(Err(m))) => {
            &&& s2 is Done
            &&& a == SelfUpdateAction::Finish { result: Err(SelfUpdateError::LaunchFailed(m)) }
        },
        (SelfUpdate::Launching, SelfUpdateEvent::Launched(Ok(()))) => {
            &&& s2 is Done
            &&& a == SelfUpdateAction::Finish { result: Ok(true) }
        },
        (s, _) => {
            &&& s2 == s
            &&& a is Idle
        },
    }
}

impl SelfUpdate {
    /// The check starts by hashing the running updater.
    pub fn begin() -> (r: (SelfUpdate, SelfUpdateAction))
        ensures
            r.0 is HashingInstalled,
            r.1 is HashInstalled,
    {
        (SelfUpdate::HashingInstalled, SelfUpdateAction::HashInstalled)
    }

    /// Takes one step on `event`.
    pub fn step(self, event: SelfUpdateEvent) -> (r: (SelfUpdate, SelfUpdateAction))
        ensures
            self_update_next(self, event, r.0, r.1),
    {
        match self {
            SelfUpdate::HashingInstalled => match event {
                SelfUpdateEvent::Hashed(Err(m)) => (
                    SelfUpdate::Done,
                    SelfUpdateAction::Finish { result: Err(SelfUpdateError::HashFailed(m)) },
                ),
                SelfUpdateEvent::Hashed(Ok(hex)) => {
                    let installed = to_lowercase(hex.as_str());
                    (
                        SelfUpdate::FetchingChecksum { installed },
                        SelfUpdateAction::FetchChecksum { url: String::from_str(UPDATER_SHA256_URL) },
                    )
                },
                _ => (SelfUpdate::HashingInstalled, SelfUpdateAction::Idle),
            },
            SelfUpdate::FetchingChecksum { installed } => match event {
                SelfUpdateEvent::Fetched(FetchOutcome::SendFailed(m)) => (
                    SelfUpdate::Done,
                    SelfUpdateAction::Finish {
                        result: Err(SelfUpdateError::ChecksumRequestFailed(m)),
                    },
                ),
                SelfUpdateEvent::Fetched(FetchOutcome::Status(code)) => (
                    SelfUpdate::Done,
                    SelfUpdateAction::Finish { result: Err(SelfUpdateError::ChecksumStatus(code)) },
                ),
                SelfUpdateEvent::Fetched(FetchOutcome::BodyFailed(m)) => (
                    SelfUpdate::Done,
                    SelfUpdateAction::Finish {
                        result: Err(SelfUpdateError::ChecksumBodyFailed(m)),
                    },
                ),
                SelfUpdateEvent::Fetched(FetchOutcome::Body(text)) => match parse_sha256(
                    text.as_str(),
                ) {
                    None => (
                        SelfUpdate::Done,
                        SelfUpdateAction::Finish { result: Err(SelfUpdateError::ChecksumUnparsable) },
                    ),
                    Some(published) => {
                        if installed == published {
                            (SelfUpdate::Done, SelfUpdateAction::Finish { result: Ok(false) })
                        } else {
                            (
                                SelfUpdate::Downloading { published },
                                SelfUpdateAction::DownloadReplacement {
                                    url: String::from_str(UPDATER_DOWNLOAD_URL),
                                },
                            )
                        }
                    },
                },
                _ => (SelfUpdate::FetchingChecksum { installed }, SelfUpdateAction::Idle),
            },
            SelfUpdate::Downloading { published } => match event {
                SelfUpdateEvent::Downloaded(Err(m)) => (
                    SelfUpdate::DiscardingReplacement { error: SelfUpdateError::DownloadFailed(m) },
                    SelfUpdateAction::DiscardReplacement,
                ),
                SelfUpdateEvent::Downloaded(Ok(())) => (
                    SelfUpdate::HashingReplacement { published },
                    SelfUpdateAction::HashReplacement,
                ),
                _ => (SelfUpdate::Downloading { published }, SelfUpdateAction::Idle),
            },
            SelfUpdate::HashingReplacement { published } => match event {
                SelfUpdateEvent::Hashed(Err(m)) => (
                    SelfUpdate::Done,
                    SelfUpdateAction::Finish { result: Err(SelfUpdateError::HashFailed(m)) },
                ),
                SelfUpdateEvent::Hashed(Ok(hex)) => {
                    let downloaded = to_lowercase(hex.as_str());
                    if downloaded == published {
                        (SelfUpdate::Launching, SelfUpdateAction::LaunchReplacement)
                    } else {
                        (
                            SelfUpdate::DiscardingReplacement {
                                error: SelfUpdateError::ReplacementMismatch,
                            },
                            SelfUpdateAction::DiscardReplacement,
                        )
                    }
                },
                _ => (SelfUpdate::HashingReplacement { published }, SelfUpdateAction::Idle),
            },
            SelfUpdate::DiscardingReplacement { error } => match event {
                SelfUpdateEvent::Discarded => (
                    SelfUpdate::Done,
                    SelfUpdateAction::Finish { result: Err(error) },
                ),
                _ => (SelfUpdate::DiscardingReplacement { error }, SelfUpdateAction::Idle),
            },
            SelfUpdate::Launching => match event {
                SelfUpdateEvent::Launched(Err(m)) => (
                    SelfUpdate::Done,
                    SelfUpdateAction::Finish { result: Err(SelfUpdateError::LaunchFailed(m)) },
                ),
                SelfUpdateEvent::Launched(Ok(())) => (
                    SelfUpdate::Done,
                    SelfUpdateAction::Finish { result: Ok(true) },
                ),
                _ => (SelfUpdate::Launching, SelfUpdateAction::Idle),
            },
            SelfUpdate::Done => (SelfUpdate::Done, SelfUpdateAction::Idle),
        }
    }
}

/// A run of the check: the states it passed through, the events the caller
/// reported, and the actions it asked for. `actions[0]` is the first action;
/// event `events[i]` takes `states[i]` to `states[i + 1]` and is answered by
/// `actions[i + 1]`.
pub open spec fn is_self_update_run(
    states: Seq<SelfUpdate>,
    events: Seq<SelfUpdateEvent>,
    actions: Seq<SelfUpdateAction>,
) -> bool {
    &&& states.len() == events.len() + 1
    &&& actions.len() == events.len() + 1
    &&& states[0] is HashingInstalled
    &&& actions[0] is HashInstalled
    &&& forall|i: int|
        0 <= i < events.len() ==> #[trigger] self_update_next(
            states[i],
            events[i],
            states[i + 1],
            actions[i + 1],
        )
}

/// `e` reports a file whose SHA-256, lowercased, is `d`.
pub open spec fn hashed_as(e: SelfUpdateEvent, d: Seq<char>) -> bool {
    e matches SelfUpdateEvent::Hashed(Ok(hex)) && lowercase(hex@) == d
}

/// `e` reports a checksum listing that publishes `d`.
pub open spec fn publishes(e: SelfUpdateEvent, d: Seq<char>) -> bool {
    e matches SelfUpdateEvent::Fetched(FetchOutcome::Body(text)) && listed_sha256(text@) == Some(d)
}

/// One of the first `i` events reports a listing that publishes `d`.
pub open spec fn published_before(events: Seq<SelfUpdateEvent>, i: int, d: Seq<char>) -> bool {
    exists|j: int| 0 <= j < i && #[trigger] publishes(events[j], d)
}

/// One of the first `i` events reports a file hashed as `d`.
pub open spec fn hashed_before(events: Seq<SelfUpdateEvent>, i: int, d: Seq<char>) -> bool {
    exists|j: int| 0 <= j < i && #[trigger] hashed_as(events[j], d)
}

/// Among the first `i` events, a file was hashed as a digest that an earlier
/// event's listing publishes.
pub open spec fn verified_before(events: Seq<SelfUpdateEvent>, i: int) -> bool {
    exists|k: int, d: Seq<char>|
        0 <= k < i && #[trigger] hashed_as(events[k], d) && published_before(events, k, d)
}

/// What every state of a run owes to the events before it.
spec fn run_invariant(states: Seq<SelfUpdate>, events: Seq<SelfUpdateEvent>, i: int) -> bool {
    &&& (states[i] matches SelfUpdate::FetchingChecksum { installed } ==> hashed_before(
        events,
        i,
        installed@,
    ))
    &&& (states[i] matches SelfUpdate::Downloading { published } ==> published_before(
        events,
        i,
        published@,
    ))
    &&& (states[i] matches SelfUpdate::HashingReplacement { published } ==> published_before(
        events,
        i,
        published@,
    ))
    &&& (states[i] is Launching ==> verified_before(events, i))
    &&& (states[i] matches SelfUpdate::DiscardingReplacement { error } ==> (error is DownloadFailed
        || error is ReplacementMismatch))
}

proof fn lemma_run_invariant(
    states: Seq<SelfUpdate>,
    events: Seq<SelfUpdateEvent>,
    actions: Seq<SelfUpdateAction>,
    i: int,
)
    requires
        is_self_update_run(states, events, actions),
        0 <= i <= events.len(),
    ensures
        run_invariant(states, events, i),
    decreases i,
{
    if i > 0 {
        let p = i - 1;
        lemma_run_invariant(states, events, actions, p);
        assert(self_update_next(states[p], events[p], states[p + 1], actions[p + 1]));
        if let SelfUpdate::FetchingChecksum { installed } = states[p] {
            let j = choose|j: int| 0 <= j < p && #[trigger] hashed_as(events[j], installed@);
            assert(hashed_as(events[j], installed@));
        }
        if let SelfUpdate::Downloading { published } = states[p] {
            let j = choose|j: int| 0 <= j < p && #[trigger] publishes(events[j], published@);
            assert(publishes(events[j], published@));
        }
        if let SelfUpdate::HashingReplacement { published } = states[p] {
            let j = choose|j: int| 0 <= j < p && #[trigger] publishes(events[j], published@);
            assert(publishes(events[j], published@));
            if let SelfUpdateEvent::Hashed(Ok(hex)) = events[p] {
                if lowercase(hex@) == published@ {
                    assert(hashed_as(events[p], published@));
                    assert(published_before(events, p, published@));
                }
            }
        }
        if states[p] is Launching {
            let (k, d) = choose|k: int, d: Seq<char>|
                0 <= k < p && #[trigger] hashed_as(events[k], d) && published_before(events, k, d);
            assert(hashed_as(events[k], d) && published_before(events, k, d));
        }
        if let SelfUpdate::HashingInstalled = states[p] {
            if let SelfUpdateEvent::Hashed(Ok(hex)) = events[p] {
                assert(hashed_as(events[p], lowercase(hex@)));
            }
        }
        if let SelfUpdate::FetchingChecksum { installed } = states[p] {
            if let SelfUpdateEvent::Fetched(FetchOutcome::Body(text)) = events[p] {
                if let Some(d) = listed_sha256(text@) {
                    assert(publishes(events[p], d));
                }
            }
        }
    }
}

/// The replacement script is started only for a downloaded updater whose
/// SHA-256 is the one the release's checksum listing publishes: the event
/// answered by `LaunchReplacement` reports a file hashed as a digest that an
/// earlier listing published.
pub proof fn lemma_replacement_launched_only_when_verified(
    states: Seq<SelfUpdate>,
    events: Seq<SelfUpdateEvent>,
    actions: Seq<SelfUpdateAction>,
    i: int,
)
    requires
        is_self_update_run(states, events, actions),
        0 <= i < events.len(),
        actions[i + 1] is LaunchReplacement,
    ensures
        exists|d: Seq<char>| #[trigger]
            hashed_as(events[i], d) && published_before(events, i, d),
{
    lemma_run_invariant(states, events, actions, i);
    assert(self_update_next(states[i], events[i], states[i + 1], actions[i + 1]));
    if let SelfUpdate::HashingReplacement { published } = states[i] {
        assert(hashed_as(events[i], published@));
    }
}

/// The check reports that the updater is being replaced (`Ok(true)`) only
/// after a downloaded file was hashed as a digest that the listing published.
pub proof fn lemma_replaced_only_when_verified(
    states: Seq<SelfUpdate>,
    events: Seq<SelfUpdateEvent>,
    actions: Seq<SelfUpdateAction>,
    i: int,
)
    requires
        is_self_update_run(states, events, actions),
        0 <= i < events.len(),
        actions[i + 1] == (SelfUpdateAction::Finish { result: Ok(true) }),
    ensures
        verified_before(events, i),
{
    lemma_run_invariant(states, events, actions, i);
    assert(self_update_next(states[i], events[i], states[i + 1], actions[i + 1]));
}

/// The check keeps the running updater (`Ok(false)`) only when the running
/// updater's SHA-256 is the one that the listing just fetched publishes.
pub proof fn lemma_kept_only_when_current(
    states: Seq<SelfUpdate>,
    events: Seq<SelfUpdateEvent>,
    actions: Seq<SelfUpdateAction>,
    i: int,
)
    requires
        is_self_update_run(states, events, actions),
        0 <= i < events.len(),
        actions[i + 1] == (SelfUpdateAction::Finish { result: Ok(false) }),
    ensures
        exists|d: Seq<char>| #[trigger]
            publishes(events[i], d) && hashed_before(events, i, d),
{
    lemma_run_invariant(states, events, actions, i);
    assert(self_update_next(states[i], events[i], states[i + 1], actions[i + 1]));
    if let SelfUpdate::FetchingChecksum { installed } = states[i] {
        assert(publishes(events[i], installed@));
    }
}

/// An upper bound on the number of events a state still has to be answered
/// with before the check is done.
pub open spec fn self_update_rank(s: SelfUpdate) -> nat {
    match s {
        SelfUpdate::HashingInstalled => 6,
        SelfUpdate::FetchingChecksum { .. } => 5,
        SelfUpdate::Downloading { .. } => 4,
        SelfUpdate::HashingReplacement { .. } => 3,
        SelfUpdate::Launching => 2,
        SelfUpdate::DiscardingReplacement { .. } => 1,
        SelfUpdate::Done => 0,
    }
}

/// Every step either ignores the event (the state stays and nothing is asked
/// for) or moves strictly closer to the end, so the check finishes after at
/// most six answered events; and it asks to finish exactly when it becomes done.
pub proof fn lemma_self_update_progress(
    s: SelfUpdate,
    e: SelfUpdateEvent,
    s2: SelfUpdate,
    a: SelfUpdateAction,
)
    requires
        self_update_next(s, e, s2, a),
    ensures
        a is Idle ==> s2 == s,
        !(a is Idle) ==> self_update_rank(s2) < self_update_rank(s),
        (a is Finish) <==> (s2 is Done && !(s is Done)),
{
}

/// When the fetched listing publishes a digest that differs from the running
/// updater's, the check downloads the published updater and waits for it
/// under that digest.
pub proof fn lemma_outdated_updater_is_downloaded(
    installed: String,
    text: String,
    d: Seq<char>,
    s2: SelfUpdate,
    a: SelfUpdateAction,
)
    requires
        self_update_next(
            SelfUpdate::FetchingChecksum { installed },
            SelfUpdateEvent::Fetched(FetchOutcome::Body(text)),
            s2,
            a,
        ),
        listed_sha256(text@) == Some(d),
        d != installed@,
    ensures
        s2 matches SelfUpdate::Downloading { published } && published@ == d,
        a matches SelfUpdateAction::DownloadReplacement { url } && url@ == UPDATER_DOWNLOAD_URL@,
{
}

/// The check fails with "cannot parse the listing" only in answer to a
/// fetched listing that publishes no digest.
pub proof fn lemma_unparsable_only_without_digest(
    states: Seq<SelfUpdate>,
    events: Seq<SelfUpdateEvent>,
    actions: Seq<SelfUpdateAction>,
    i: int,
)
    requires
        is_self_update_run(states, events, actions),
        0 <= i < events.len(),
        actions[i + 1] == (SelfUpdateAction::Finish {
            result: Err(SelfUpdateError::ChecksumUnparsable),
        }),
    ensures
        states[i] is FetchingChecksum,
        events[i] matches SelfUpdateEvent::Fetched(FetchOutcome::Body(text)) && listed_sha256(
            text@,
        ) is None,
{
    lemma_run_invariant(states, events, actions, i);
    assert(self_update_next(states[i], events[i], states[i + 1], actions[i + 1]));
}

/// The running updater's SHA-256, lowercased, is compared with what the
/// release's checksum listing publishes.
pub proof fn lemma_hashed_updater_fetches_listing(
    hex: String,
    s2: SelfUpdate,
    a: SelfUpdateAction,
)
    requires
        self_update_next(SelfUpdate::HashingInstalled, SelfUpdateEvent::Hashed(Ok(hex)), s2, a),
    ensures
        s2 matches SelfUpdate::FetchingChecksum { installed } && installed@ == lowercase(hex@),
        a matches SelfUpdateAction::FetchChecksum { url } && url@ == UPDATER_SHA256_URL@,
{
}

/// An updater whose digest is the published one is kept (`Ok(false)`).
pub proof fn lemma_current_updater_is_kept(
    installed: String,
    text: String,
    s2: SelfUpdate,
    a: SelfUpdateAction,
)
    requires
        self_update_next(
            SelfUpdate::FetchingChecksum { installed },
            SelfUpdateEvent::Fetched(FetchOutcome::Body(text)),
            s2,
            a,
        ),
        listed_sha256(text@) == Some(installed@),
    ensures
        a == (SelfUpdateAction::Finish { result: Ok(false) }),
        s2 is Done,
{
}

/// A downloaded updater is launched when its lowercased SHA-256 is the
/// published digest, and discarded as a mismatch otherwise.
pub proof fn lemma_replacement_check(
    published: String,
    hex: String,
    s2: SelfUpdate,
    a: SelfUpdateAction,
)
    requires
        self_update_next(
            SelfUpdate::HashingReplacement { published },
            SelfUpdateEvent::Hashed(Ok(hex)),
            s2,
            a,
        ),
    ensures
        lowercase(hex@) == published@ ==> (a is LaunchReplacement && s2 is Launching),
        lowercase(hex@) != published@ ==> (a is DiscardReplacement && s2
            == (SelfUpdate::DiscardingReplacement { error: SelfUpdateError::ReplacementMismatch })),
{
}

/// A failed download of the new updater discards the partial file and then
/// fails with the download's error.
pub proof fn lemma_failed_download_discarded(
    published: String,
    m: String,
    s2: SelfUpdate,
    a: SelfUpdateAction,
)
    requires
        self_update_next(
            SelfUpdate::Downloading { published },
            SelfUpdateEvent::Downloaded(Err(m)),
            s2,
            a,
        ),
    ensures
        a is DiscardReplacement,
        s2 == (SelfUpdate::DiscardingReplacement { error: SelfUpdateError::DownloadFailed(m) }),
{
}

/// Once the replacement script is started the check reports `Ok(true)`, and
/// a failed start is reported with its error.
pub proof fn lemma_launch_result(r: Result<(), String>, s2: SelfUpdate, a: SelfUpdateAction)
    requires
        self_update_next(SelfUpdate::Launching, SelfUpdateEvent::Launched(r), s2, a),
    ensures
        s2 is Done,
        r is Ok ==> a == (SelfUpdateAction::Finish { result: Ok(true) }),
        r matches Err(m) ==> a == (SelfUpdateAction::Finish {
            result: Err(SelfUpdateError::LaunchFailed(m)),
        }),
{
}

} // verus!
