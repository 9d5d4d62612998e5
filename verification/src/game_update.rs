//! The decisions of a run of the updater: first the check on the updater
//! itself, then the game. When the game's MD5 matches the published one the
//! game is started as it is; otherwise the update configuration is fetched,
//! the archive it names is downloaded and checked against the configured
//! MD5, extracted over the game, and removed, and the game is started. The
//! caller performs each action and reports what happened as the next event.
use vstd::prelude::*;
use vstd::string::StringExecFns;
use crate::http::{FetchOutcome, HttpStatus};
use crate::naming::{MD5_URL, APP_CONFIG_URL, DOWNLOAD_BASE_URL, download_url};
use crate::self_update::SelfUpdateError;
use crate::text::{to_lowercase, lowercase, trim, trimmed};

verus! {

/// The update configuration the game's server publishes.
#[derive(Debug)]
pub struct AppConfig {
    /// The version of the game the archive holds.
    pub version: String,
    /// The name of the update archive under the download directory.
    pub filename: String,
    /// The MD5 of the update archive, in hexadecimal.
    pub md5: String,
    /// The size of the update archive in bytes.
    pub size: u64,
}

/// What looking for the game next to the updater found.
#[derive(Debug)]
pub enum GameLocation {
    /// The updater's path has no parent directory.
    NoGameDir,
    /// The game's directory has no `seer.exe`.
    GameMissing,
    /// `seer.exe` is there.
    Found,
}

/// How a run ended.
#[derive(Debug)]
pub enum GameUpdateOutcome {
    /// A new updater is being put in place; this one must exit.
    UpdaterReplaced,
    /// The game's directory could not be determined.
    GameDirUnknown,
    /// `seer.exe` is missing.
    GameMissing,
    /// Hashing `seer.exe` failed; the error's text.
    LocalHashFailed(String),
    /// The published MD5 could not be requested; the error's text.
    RemoteMd5RequestFailed(String),
    /// The published MD5 was answered with this unsuccessful status.
    RemoteMd5Status(HttpStatus),
    /// The published MD5's body could not be read; the error's text.
    RemoteMd5BodyFailed(String),
    /// The configuration could not be requested; the error's text.
    ConfigRequestFailed(String),
    /// The configuration was answered with this unsuccessful status.
    ConfigStatus(HttpStatus),
    /// The configuration's body could not be read; the error's text.
    ConfigBodyFailed(String),
    /// The configuration is not valid JSON of the expected shape; the error's text.
    ConfigInvalid(String),
    /// Downloading the archive failed; the error's text.
    DownloadFailed(String),
    /// Hashing the downloaded archive failed; the error's text.
    ArchiveHashFailed(String),
    /// The downloaded archive's MD5 differs from the configured one.
    ArchiveMismatch,
    /// Extracting the archive failed; the error's text.
    ExtractFailed(String),
    /// The game was started, after an update or not.
    GameStarted { updated: bool },
    /// Starting the game failed, after an update or not; the error's text.
    GameStartFailed { updated: bool, error: String },
}

/// Where a run stands.
#[derive(Debug)]
pub enum GameUpdate {
    /// The updater is checking itself.
    CheckingUpdater,
    /// Looking for `seer.exe` next to the updater.
    LocatingGame,
    /// Hashing `seer.exe`.
    HashingGame,
    /// Fetching the published MD5; the installed game's MD5.
    FetchingRemoteMd5 { local: String },
    /// Fetching the update configuration.
    FetchingConfig,
    /// Parsing the update configuration.
    ParsingConfig,
    /// Downloading the archive; the configured MD5.
    Downloading { expected_md5: String },
    /// Hashing the downloaded archive; the configured MD5.
    HashingArchive { expected_md5: String },
    /// Extracting the archive over the game.
    Extracting,
    /// Deleting the downloaded archive before ending with `outcome`.
    DiscardingArchive { outcome: GameUpdateOutcome },
    /// Deleting the downloaded archive after a successful update.
    Cleaning,
    /// Starting the game.
    Launching { updated: bool },
    /// Finished.
    Done,
}

/// What happened when the caller performed the last action.
#[derive(Debug)]
pub enum GameUpdateEvent {
    /// The check on the updater ended (see `SelfUpdateAction::Finish`).
    UpdaterChecked(Result<bool, SelfUpdateError>),
    /// The game was looked for.
    Located(GameLocation),
    /// A file was hashed: its lowercase hexadecimal MD5, or the error's text.
    Hashed(Result<String, String>),
    /// A text resource was fetched.
    Fetched(FetchOutcome),
    /// The configuration was parsed, or the parser's error text.
    ConfigParsed(Result<AppConfig, String>),
    /// The download finished, or failed with the error's text.
    Downloaded(Result<(), String>),
    /// The extraction finished, or failed with the error's text.
    Extracted(Result<(), String>),
    /// The archive was deleted, or deleting it failed with the error's text.
    Removed(Result<(), String>),
    /// The game was started, or starting it failed with the error's text.
    Launched(Result<(), String>),
}

/// What the caller is to do next.
#[derive(Debug)]
pub enum GameUpdateAction {
    /// Run the check on the updater itself.
    CheckUpdater,
    /// Look for `seer.exe` in the updater's directory.
    LocateGame,
    /// Compute the MD5 of `seer.exe`.
    HashGame,
    /// Fetch the published MD5 at `url`.
    FetchRemoteMd5 { url: String },
    /// Fetch the update configuration at `url`.
    FetchConfig { url: String },
    /// Parse `text` as the update configuration.
    ParseConfig { text: String },
    /// Download `url` into a new temporary file named after `filename`.
    DownloadArchive { url: String, filename: String },
    /// Compute the MD5 of the downloaded archive.
    HashArchive,
    /// Extract the downloaded archive into the game's directory.
    ExtractArchive,
    /// Delete the downloaded archive, ignoring any error.
    DiscardArchive,
    /// Delete the downloaded archive, reporting any error.
    RemoveArchive,
    /// Start the game.
    StartGame { updated: bool },
    /// Stop with `outcome`.
    Finish { outcome: GameUpdateOutcome },
    /// Nothing: the event does not answer the action the state waits on.
    Idle,
}

/// One step of a run: in state `s`, on event `e`, the run moves to `s2` and
/// asks for action `a`.
pub open spec fn game_update_next(
    s: GameUpdate,
    e: GameUpdateEvent,
    s2: GameUpdate,
    a: GameUpdateAction,
) -> bool {
    match (s, e) {
        (GameUpdate::CheckingUpdater, GameUpdateEvent::UpdaterChecked(r)) => {
            if r == Ok::<bool, SelfUpdateError>(true) {
                &&& s2 is Done
                &&& a == GameUpdateAction::Finish { outcome: GameUpdateOutcome::UpdaterReplaced }
            } else {
                &&& s2 is LocatingGame
                &&& a is LocateGame
            }
        },
        (GameUpdate::LocatingGame, GameUpdateEvent::Located(l)) => match l {
            GameLocation::NoGameDir => {
                &&& s2 is Done
                &&& a == GameUpdateAction::Finish { outcome: GameUpdateOutcome::GameDirUnknown }
            },
            GameLocation::GameMissing => {
                &&& s2 is Done
                &&& a == GameUpdateAction::Finish { outcome: GameUpdateOutcome::GameMissing }
            },
            GameLocation::Found => {
                &&& s2 is HashingGame
                &&& a is HashGame
            },
        },
        (GameUpdate::HashingGame, GameUpdateEvent::Hashed(Err(m))) => {
            &&& s2 is Done
            &&& a == GameUpdateAction::Finish { outcome: GameUpdateOutcome::LocalHashFailed(m) }
        },
        (GameUpdate::HashingGame, GameUpdateEvent::Hashed(Ok(hex))) => {
            &&& s2 matches GameUpdate::FetchingRemoteMd5 { local } && local@ == lowercase(
                hex@,
            )
            &&& a matches GameUpdateAction::FetchRemoteMd5 { url } && url@ == MD5_URL@
        },
        (GameUpdate::FetchingRemoteMd5 { local }, GameUpdateEvent::Fetched(outcome)) => {
            match outcome {
                FetchOutcome::SendFailed(m) => {
                    &&& s2 is Done
                    &&& a == GameUpdateAction::Finish {
                        outcome: GameUpdateOutcome::RemoteMd5RequestFailed(m),
                    }
                },
                FetchOutcome::Status(code) => {
                    &&& s2 is Done
                    &&& a == GameUpdateAction::Finish {
                        outcome: GameUpdateOutcome::RemoteMd5Status(code),
                    }
                },
                FetchOutcome::BodyFailed(m) => {
                    &&& s2 is Done
                    &&& a == GameUpdateAction::Finish {
                        outcome: GameUpdateOutcome::RemoteMd5BodyFailed(m),
                    }
                },
                FetchOutcome::Body(text) => if local@ == lowercase(trimmed(text@)) {
                    &&& s2 == GameUpdate::Launching { updated: false }
                    &&& a == GameUpdateAction::StartGame { updated: false }
                } else {
                    &&& s2 is FetchingConfig
                    &&& a matches GameUpdateAction::FetchConfig { url } && url@ == APP_CONFIG_URL@
                },
            }
        },
        (GameUpdate::FetchingConfig, GameUpdateEvent::Fetched(outcome)) => match outcome {
            FetchOutcome::SendFailed(m) => {
                &&& s2 is Done
                &&& a == GameUpdateAction::Finish {
                    outcome: GameUpdateOutcome::ConfigRequestFailed(m),
                }
            },
            FetchOutcome::Status(code) => {
                &&& s2 is Done
                &&& a == GameUpdateAction::Finish { outcome: GameUpdateOutcome::ConfigStatus(code) }
            },
            FetchOutcome::BodyFailed(m) => {
                &&& s2 is Done
                &&& a == GameUpdateAction::Finish { outcome: GameUpdateOutcome::ConfigBodyFailed(m) }
            },
            FetchOutcome::Body(text) => {
                &&& s2 is ParsingConfig
                &&& a == GameUpdateAction::ParseConfig { text }
            },
        },
        (GameUpdate::ParsingConfig, GameUpdateEvent::ConfigParsed(Err(m))) => {
            &&& s2 is Done
            &&& a == GameUpdateAction::Finish { outcome: GameUpdateOutcome::ConfigInvalid(m) }
        },
        (GameUpdate::ParsingConfig, GameUpdateEvent::ConfigParsed(Ok(config))) => {
            &&& s2 == GameUpdate::Downloading { expected_md5: config.md5 }
            &&& a matches GameUpdateAction::DownloadArchive { url, filename } && url@
                == DOWNLOAD_BASE_URL@ + config.filename@ && filename == config.filename
        },
        (GameUpdate::Downloading { expected_md5 }, GameUpdateEvent::Downloaded(Err(m))) => {
            &&& s2 == GameUpdate::DiscardingArchive {
                outcome: GameUpdateOutcome::DownloadFailed(m),
            }
            &&& a is DiscardArchive
        },
        (GameUpdate::Downloading { expected_md5 }, GameUpdateEvent::Downloaded(Ok(()))) => {
            &&& s2 == GameUpdate::HashingArchive { expected_md5 }
            &&& a is HashArchive
        },
        (GameUpdate::HashingArchive { expected_md5 }, GameUpdateEvent::Hashed(Err(m))) => {
            &&& s2 == GameUpdate::DiscardingArchive {
                outcome: GameUpdateOutcome::ArchiveHashFailed(m),
            }
            &&& a is DiscardArchive
        },
        (GameUpdate::HashingArchive { expected_md5 }, GameUpdateEvent::Hashed(Ok(hex))) => {
            if lowercase(hex@) == lowercase(expected_md5@) {
                &&& s2 is Extracting
                &&& a is ExtractArchive
            } else {
                &&& s2 == GameUpdate::DiscardingArchive {
                    outcome: GameUpdateOutcome::ArchiveMismatch,
                }
                &&& a is DiscardArchive
            }
        },
        (GameUpdate::Extracting, GameUpdateEvent::Extracted(Err(m))) => {
            &&& s2 == GameUpdate::DiscardingArchive {
                outcome: GameUpdateOutcome::ExtractFailed(m),
            }
            &&& a is DiscardArchive
        },
        (GameUpdate::Extracting, GameUpdateEvent::Extracted(Ok(()))) => {
            &&& s2 is Cleaning
            &&& a is RemoveArchive
        },
        (GameUpdate::DiscardingArchive { outcome }, GameUpdateEvent::Removed(_)) => {
            &&& s2 is Done
            &&& a == GameUpdateAction::Finish { outcome }
        },
        (GameUpdate::Cleaning, GameUpdateEvent::Removed(_)) => {
            &&& s2 == GameUpdate::Launching { updated: true }
            &&& a == GameUpdateAction::StartGame { updated: true }
        },
        (GameUpdate::Launching { updated }, GameUpdateEvent::Launched(Ok(()))) => {
            &&& s2 is Done
            &&& a == GameUpdateAction::Finish { outcome: GameUpdateOutcome::GameStarted { updated } }
        },
        (GameUpdate::Launching { updated }, GameUpdateEvent::Launched(Err(m))) => {
            &&& s2 is Done
            &&& a == GameUpdateAction::Finish {
                outcome: GameUpdateOutcome::GameStartFailed { updated, error: m },
            }
        },
        (s, _) => {
            &&& s2 == s
            &&& a is Idle
        },
    }
}

impl GameUpdate {
    /// A run starts with the check on the updater itself.
    pub fn begin() -> (r: (GameUpdate, GameUpdateAction))
        ensures
            r.0 is CheckingUpdater,
            r.1 is CheckUpdater,
    {
        (GameUpdate::CheckingUpdater, GameUpdateAction::CheckUpdater)
    }

    /// Takes one step on `event`.
    pub fn step(self, event: GameUpdateEvent) -> (r: (GameUpdate, GameUpdateAction))
        ensures
            game_update_next(self, event, r.0, r.1),
    {
        match self {
            GameUpdate::CheckingUpdater => match event {
                GameUpdateEvent::UpdaterChecked(Ok(true)) => (
                    GameUpdate::Done,
                    GameUpdateAction::Finish { outcome: GameUpdateOutcome::UpdaterReplaced },
                ),
                GameUpdateEvent::UpdaterChecked(_) => (
                    GameUpdate::LocatingGame,
                    GameUpdateAction::LocateGame,
                ),
                _ => (GameUpdate::CheckingUpdater, GameUpdateAction::Idle),
            },
            GameUpdate::LocatingGame => match event {
                GameUpdateEvent::Located(GameLocation::NoGameDir) => (
                    GameUpdate::Done,
                    GameUpdateAction::Finish { outcome: GameUpdateOutcome::GameDirUnknown },
                ),
                GameUpdateEvent::Located(GameLocation::GameMissing) => (
                    GameUpdate::Done,
                    GameUpdateAction::Finish { outcome: GameUpdateOutcome::GameMissing },
                ),
                GameUpdateEvent::Located(GameLocation::Found) => (
                    GameUpdate::HashingGame,
                    GameUpdateAction::HashGame,
                ),
                _ => (GameUpdate::LocatingGame, GameUpdateAction::Idle),
            },
            GameUpdate::HashingGame => match event {
                GameUpdateEvent::Hashed(Err(m)) => (
                    GameUpdate::Done,
                    GameUpdateAction::Finish { outcome: GameUpdateOutcome::LocalHashFailed(m) },
                ),
                GameUpdateEvent::Hashed(Ok(hex)) => {
                    let local = to_lowercase(hex.as_str());
                    (
                        GameUpdate::FetchingRemoteMd5 { local },
                        GameUpdateAction::FetchRemoteMd5 { url: String::from_str(MD5_URL) },
                    )
                },
                _ => (GameUpdate::HashingGame, GameUpdateAction::Idle),
            },
            GameUpdate::FetchingRemoteMd5 { local } => match event {
                GameUpdateEvent::Fetched(FetchOutcome::SendFailed(m)) => (
                    GameUpdate::Done,
                    GameUpdateAction::Finish {
                        outcome: GameUpdateOutcome::RemoteMd5RequestFailed(m),
                    },
                ),
                GameUpdateEvent::Fetched(FetchOutcome::Status(code)) => (
                    GameUpdate::Done,
                    GameUpdateAction::Finish { outcome: GameUpdateOutcome::RemoteMd5Status(code) },
                ),
                GameUpdateEvent::Fetched(FetchOutcome::BodyFailed(m)) => (
                    GameUpdate::Done,
                    GameUpdateAction::Finish {
                        outcome: GameUpdateOutcome::RemoteMd5BodyFailed(m),
                    },
                ),
                GameUpdateEvent::Fetched(FetchOutcome::Body(text)) => {
                    let remote = to_lowercase(trim(text.as_str()));
                    if local == remote {
                        (
                            GameUpdate::Launching { updated: false },
                            GameUpdateAction::StartGame { updated: false },
                        )
                    } else {
                        (
                            GameUpdate::FetchingConfig,
                            GameUpdateAction::FetchConfig { url: String::from_str(APP_CONFIG_URL) },
                        )
                    }
                },
                _ => (GameUpdate::FetchingRemoteMd5 { local }, GameUpdateAction::Idle),
            },
            GameUpdate::FetchingConfig => match event {
                GameUpdateEvent::Fetched(FetchOutcome::SendFailed(m)) => (
                    GameUpdate::Done,
                    GameUpdateAction::Finish { outcome: GameUpdateOutcome::ConfigRequestFailed(m) },
                ),
                GameUpdateEvent::Fetched(FetchOutcome::Status(code)) => (
                    GameUpdate::Done,
                    GameUpdateAction::Finish { outcome: GameUpdateOutcome::ConfigStatus(code) },
                ),
                GameUpdateEvent::Fetched(FetchOutcome::BodyFailed(m)) => (
                    GameUpdate::Done,
                    GameUpdateAction::Finish { outcome: GameUpdateOutcome::ConfigBodyFailed(m) },
                ),
                GameUpdateEvent::Fetched(FetchOutcome::Body(text)) => (
                    GameUpdate::ParsingConfig,
                    GameUpdateAction::ParseConfig { text },
                ),
                _ => (GameUpdate::FetchingConfig, GameUpdateAction::Idle),
            },
            GameUpdate::ParsingConfig => match event {
                GameUpdateEvent::ConfigParsed(Err(m)) => (
                    GameUpdate::Done,
                    GameUpdateAction::Finish { outcome: GameUpdateOutcome::ConfigInvalid(m) },
                ),
                GameUpdateEvent::ConfigParsed(Ok(config)) => {
                    let url = download_url(config.filename.as_str());
                    (
                        GameUpdate::Downloading { expected_md5: config.md5 },
                        GameUpdateAction::DownloadArchive { url, filename: config.filename },
                    )
                },
                _ => (GameUpdate::ParsingConfig, GameUpdateAction::Idle),
            },
            GameUpdate::Downloading { expected_md5 } => match event {
                GameUpdateEvent::Downloaded(Err(m)) => (
                    GameUpdate::DiscardingArchive { outcome: GameUpdateOutcome::DownloadFailed(m) },
                    GameUpdateAction::DiscardArchive,
                ),
                GameUpdateEvent::Downloaded(Ok(())) => (
                    GameUpdate::HashingArchive { expected_md5 },
                    GameUpdateAction::HashArchive,
                ),
                _ => (GameUpdate::Downloading { expected_md5 }, GameUpdateAction::Idle),
            },
            GameUpdate::HashingArchive { expected_md5 } => match event {
                GameUpdateEvent::Hashed(Err(m)) => (
                    GameUpdate::DiscardingArchive {
                        outcome: GameUpdateOutcome::ArchiveHashFailed(m),
                    },
                    GameUpdateAction::DiscardArchive,
                ),
                GameUpdateEvent::Hashed(Ok(hex)) => {
                    let downloaded = to_lowercase(hex.as_str());
                    let expected = to_lowercase(expected_md5.as_str());
                    if downloaded == expected {
                        (GameUpdate::Extracting, GameUpdateAction::ExtractArchive)
                    } else {
                        (
                            GameUpdate::DiscardingArchive {
                                outcome: GameUpdateOutcome::ArchiveMismatch,
                            },
                            GameUpdateAction::DiscardArchive,
                        )
                    }
                },
                _ => (GameUpdate::HashingArchive { expected_md5 }, GameUpdateAction::Idle),
            },
            GameUpdate::Extracting => match event {
                GameUpdateEvent::Extracted(Err(m)) => (
                    GameUpdate::DiscardingArchive { outcome: GameUpdateOutcome::ExtractFailed(m) },
                    GameUpdateAction::DiscardArchive,
                ),
                GameUpdateEvent::Extracted(Ok(())) => (
                    GameUpdate::Cleaning,
                    GameUpdateAction::RemoveArchive,
                ),
                _ => (GameUpdate::Extracting, GameUpdateAction::Idle),
            },
            GameUpdate::DiscardingArchive { outcome } => match event {
                GameUpdateEvent::Removed(_) => (GameUpdate::Done, GameUpdateAction::Finish { outcome }),
                _ => (GameUpdate::DiscardingArchive { outcome }, GameUpdateAction::Idle),
            },
            GameUpdate::Cleaning => match event {
                GameUpdateEvent::Removed(_) => (
                    GameUpdate::Launching { updated: true },
                    GameUpdateAction::StartGame { updated: true },
                ),
                _ => (GameUpdate::Cleaning, GameUpdateAction::Idle),
            },
            GameUpdate::Launching { updated } => match event {
                GameUpdateEvent::Launched(Ok(())) => (
                    GameUpdate::Done,
                    GameUpdateAction::Finish { outcome: GameUpdateOutcome::GameStarted { updated } },
                ),
                GameUpdateEvent::Launched(Err(m)) => (
                    GameUpdate::Done,
                    GameUpdateAction::Finish {
                        outcome: GameUpdateOutcome::GameStartFailed { updated, error: m },
                    },
                ),
                _ => (GameUpdate::Launching { updated }, GameUpdateAction::Idle),
            },
            GameUpdate::Done => (GameUpdate::Done, GameUpdateAction::Idle),
        }
    }
}

/// A run: the states it passed through, the events the caller reported, and
/// the actions it asked for. `actions[0]` is the first action; event
/// `events[i]` takes `states[i]` to `states[i + 1]` and is answered by
/// `actions[i + 1]`.
pub open spec fn is_game_update_run(
    states: Seq<GameUpdate>,
    events: Seq<GameUpdateEvent>,
    actions: Seq<GameUpdateAction>,
) -> bool {
    &&& states.len() == events.len() + 1
    &&& actions.len() == events.len() + 1
    &&& states[0] is CheckingUpdater
    &&& actions[0] is CheckUpdater
    &&& forall|i: int|
        0 <= i < events.len() ==> #[trigger] game_update_next(
            states[i],
            events[i],
            states[i + 1],
            actions[i + 1],
        )
}

/// `e` reports a file whose MD5, lowercased, is `d`.
pub open spec fn hashed_as(e: GameUpdateEvent, d: Seq<char>) -> bool {
    e matches GameUpdateEvent::Hashed(Ok(hex)) && lowercase(hex@) == d
}

/// One of the first `i` events reports a file hashed as `d`.
pub open spec fn hashed_before(events: Seq<GameUpdateEvent>, i: int, d: Seq<char>) -> bool {
    exists|j: int| 0 <= j < i && #[trigger] hashed_as(events[j], d)
}

/// `e` reports a configuration whose MD5 is `md5`.
pub open spec fn configures(e: GameUpdateEvent, md5: Seq<char>) -> bool {
    e matches GameUpdateEvent::ConfigParsed(Ok(config)) && config.md5@ == md5
}

/// One of the first `i` events reports a configuration whose MD5 is `md5`.
pub open spec fn configured_before(events: Seq<GameUpdateEvent>, i: int, md5: Seq<char>) -> bool {
    exists|j: int| 0 <= j < i && #[trigger] configures(events[j], md5)
}

/// `a` asks for the archive to be extracted.
pub open spec fn is_extraction(a: GameUpdateAction) -> bool {
    a is ExtractArchive
}

/// `a` asks for the downloaded archive to be deleted.
pub open spec fn is_removal(a: GameUpdateAction) -> bool {
    a is DiscardArchive || a is RemoveArchive
}

/// A downloaded archive may be lying in the temporary directory.
pub open spec fn archive_pending(s: GameUpdate) -> bool {
    s is Downloading || s is HashingArchive || s is Extracting
}

/// What every state of a run owes to what came before it.
spec fn run_invariant(
    states: Seq<GameUpdate>,
    events: Seq<GameUpdateEvent>,
    actions: Seq<GameUpdateAction>,
    i: int,
) -> bool {
    &&& (states[i] matches GameUpdate::FetchingRemoteMd5 { local } ==> hashed_before(
        events,
        i,
        local@,
    ))
    &&& (states[i] matches GameUpdate::Downloading { expected_md5 } ==> configured_before(
        events,
        i,
        expected_md5@,
    ))
    &&& (states[i] matches GameUpdate::HashingArchive { expected_md5 } ==> configured_before(
        events,
        i,
        expected_md5@,
    ))
    &&& ((states[i] is Cleaning || states[i] == GameUpdate::Launching { updated: true })
        ==> exists|k: int| 0 <= k <= i && #[trigger] is_extraction(actions[k]))
    &&& (states[i] matches GameUpdate::DiscardingArchive { outcome } ==> is_discard_outcome(
        outcome,
    ))
}

/// The outcomes with which a run discards the downloaded archive.
pub open spec fn is_discard_outcome(o: GameUpdateOutcome) -> bool {
    ||| o is DownloadFailed
    ||| o is ArchiveHashFailed
    ||| o is ArchiveMismatch
    ||| o is ExtractFailed
}

proof fn lemma_run_invariant(
    states: Seq<GameUpdate>,
    events: Seq<GameUpdateEvent>,
    actions: Seq<GameUpdateAction>,
    i: int,
)
    requires
        is_game_update_run(states, events, actions),
        0 <= i <= events.len(),
    ensures
        run_invariant(states, events, actions, i),
    decreases i,
{
    if i > 0 {
        let p = i - 1;
        lemma_run_invariant(states, events, actions, p);
        assert(game_update_next(states[p], events[p], states[p + 1], actions[p + 1]));
        if let GameUpdate::FetchingRemoteMd5 { local } = states[p] {
            let j = choose|j: int| 0 <= j < p && #[trigger] hashed_as(events[j], local@);
            assert(hashed_as(events[j], local@));
        }
        if let GameUpdate::HashingGame = states[p] {
            if let GameUpdateEvent::Hashed(Ok(hex)) = events[p] {
                assert(hashed_as(events[p], lowercase(hex@)));
            }
        }
        if let GameUpdate::ParsingConfig = states[p] {
            if let GameUpdateEvent::ConfigParsed(Ok(config)) = events[p] {
                assert(configures(events[p], config.md5@));
            }
        }
        if let GameUpdate::Downloading { expected_md5 } = states[p] {
            let j = choose|j: int| 0 <= j < p && #[trigger] configures(events[j], expected_md5@);
            assert(configures(events[j], expected_md5@));
        }
        if let GameUpdate::HashingArchive { expected_md5 } = states[p] {
            let j = choose|j: int| 0 <= j < p && #[trigger] configures(events[j], expected_md5@);
            assert(configures(events[j], expected_md5@));
        }
        if states[p] is Extracting {
            if states[i] is Cleaning {
                // The extraction was asked for when the run entered `Extracting`.
                lemma_extracting_entered(states, events, actions, p);
                let k = choose|k: int| 0 <= k <= p && #[trigger] is_extraction(actions[k]);
                assert(is_extraction(actions[k]));
            }
        }
        if states[p] is Cleaning || states[p] == (GameUpdate::Launching { updated: true }) {
            let k = choose|k: int| 0 <= k <= p && #[trigger] is_extraction(actions[k]);
            assert(is_extraction(actions[k]));
        }
    }
}

/// A run is in `Extracting` only after asking for the extraction.
proof fn lemma_extracting_entered(
    states: Seq<GameUpdate>,
    events: Seq<GameUpdateEvent>,
    actions: Seq<GameUpdateAction>,
    i: int,
)
    requires
        is_game_update_run(states, events, actions),
        0 <= i <= events.len(),
        states[i] is Extracting,
    ensures
        exists|k: int| 0 <= k <= i && #[trigger] is_extraction(actions[k]),
    decreases i,
{
    if i > 0 {
        let p = i - 1;
        assert(game_update_next(states[p], events[p], states[p + 1], actions[p + 1]));
        if states[p] is Extracting {
            lemma_extracting_entered(states, events, actions, p);
            let k = choose|k: int| 0 <= k <= p && #[trigger] is_extraction(actions[k]);
            assert(is_extraction(actions[k]));
        } else {
            assert(is_extraction(actions[i]));
        }
    }
}

/// The downloaded archive is extracted over the game only when its MD5 is
/// the one the configuration gives (both lowercased): the event answered by
/// `ExtractArchive` reports the archive hashed as the lowercased MD5 of an
/// earlier configuration.
pub proof fn lemma_extracted_only_when_verified(
    states: Seq<GameUpdate>,
    events: Seq<GameUpdateEvent>,
    actions: Seq<GameUpdateAction>,
    i: int,
)
    requires
        is_game_update_run(states, events, actions),
        0 <= i < events.len(),
        actions[i + 1] is ExtractArchive,
    ensures
        exists|md5: Seq<char>| #[trigger]
            configured_before(events, i, md5) && hashed_as(events[i], lowercase(md5)),
{
    lemma_run_invariant(states, events, actions, i);
    assert(game_update_next(states[i], events[i], states[i + 1], actions[i + 1]));
    if let GameUpdate::HashingArchive { expected_md5 } = states[i] {
        assert(configured_before(events, i, expected_md5@));
        assert(hashed_as(events[i], lowercase(expected_md5@)));
    }
}

/// The game is started without an update only when the game's MD5 equals the
/// published one (trimmed, both lowercased): the event answered by
/// `StartGame { updated: false }` is the published MD5, and an earlier event
/// hashed the game as that.
pub proof fn lemma_started_as_is_only_when_current(
    states: Seq<GameUpdate>,
    events: Seq<GameUpdateEvent>,
    actions: Seq<GameUpdateAction>,
    i: int,
)
    requires
        is_game_update_run(states, events, actions),
        0 <= i < events.len(),
        actions[i + 1] == (GameUpdateAction::StartGame { updated: false }),
    ensures
        events[i] matches GameUpdateEvent::Fetched(FetchOutcome::Body(text)) && hashed_before(
            events,
            i,
            lowercase(trimmed(text@)),
        ),
{
    lemma_run_invariant(states, events, actions, i);
    assert(game_update_next(states[i], events[i], states[i + 1], actions[i + 1]));
}

/// The game is started after an update only once the archive was extracted.
pub proof fn lemma_started_updated_only_after_extraction(
    states: Seq<GameUpdate>,
    events: Seq<GameUpdateEvent>,
    actions: Seq<GameUpdateAction>,
    i: int,
)
    requires
        is_game_update_run(states, events, actions),
        0 <= i < events.len(),
        actions[i + 1] == (GameUpdateAction::StartGame { updated: true }),
    ensures
        exists|k: int| 0 <= k <= i && #[trigger] is_extraction(actions[k]),
{
    lemma_run_invariant(states, events, actions, i);
    assert(game_update_next(states[i], events[i], states[i + 1], actions[i + 1]));
}

/// From a download on, the archive is pending until a removal is asked for.
proof fn lemma_pending_until_removed(
    states: Seq<GameUpdate>,
    events: Seq<GameUpdateEvent>,
    actions: Seq<GameUpdateAction>,
    d: int,
    m: int,
)
    requires
        is_game_update_run(states, events, actions),
        0 <= d <= m <= events.len(),
        actions[d] is DownloadArchive,
    ensures
        archive_pending(states[m]) || exists|r: int| d < r <= m && #[trigger] is_removal(actions[r]),
    decreases m - d,
{
    if m == d {
        assert(d > 0);
        assert(game_update_next(states[d - 1], events[d - 1], states[d - 1 + 1], actions[d - 1 + 1]));
    } else {
        let p = m - 1;
        lemma_pending_until_removed(states, events, actions, d, p);
        assert(game_update_next(states[p], events[p], states[p + 1], actions[p + 1]));
        if archive_pending(states[p]) {
            if !archive_pending(states[m]) {
                assert(is_removal(actions[m]));
            }
        } else {
            let r = choose|r: int| d < r <= p && #[trigger] is_removal(actions[r]);
            assert(is_removal(actions[r]));
        }
    }
}

/// Once the archive download has been asked for, the run does not end
/// without asking for the downloaded archive to be deleted.
pub proof fn lemma_archive_removed_before_finish(
    states: Seq<GameUpdate>,
    events: Seq<GameUpdateEvent>,
    actions: Seq<GameUpdateAction>,
    d: int,
    f: int,
)
    requires
        is_game_update_run(states, events, actions),
        0 <= d < f < actions.len(),
        actions[d] is DownloadArchive,
        actions[f] is Finish,
    ensures
        exists|r: int| d < r < f && #[trigger] is_removal(actions[r]),
{
    lemma_pending_until_removed(states, events, actions, d, f - 1);
    assert(game_update_next(states[f - 1], events[f - 1], states[f - 1 + 1], actions[f - 1 + 1]));
    if !archive_pending(states[f - 1]) {
        let r = choose|r: int| d < r <= f - 1 && #[trigger] is_removal(actions[r]);
        assert(is_removal(actions[r]));
    }
}

/// An upper bound on the number of events a state still has to be answered
/// with before the run is done.
pub open spec fn game_update_rank(s: GameUpdate) -> nat {
    match s {
        GameUpdate::CheckingUpdater => 12,
        GameUpdate::LocatingGame => 11,
        GameUpdate::HashingGame => 10,
        GameUpdate::FetchingRemoteMd5 { .. } => 9,
        GameUpdate::FetchingConfig => 8,
        GameUpdate::ParsingConfig => 7,
        GameUpdate::Downloading { .. } => 6,
        GameUpdate::HashingArchive { .. } => 5,
        GameUpdate::Extracting => 4,
        GameUpdate::Cleaning => 3,
        GameUpdate::DiscardingArchive { .. } => 2,
        GameUpdate::Launching { .. } => 1,
        GameUpdate::Done => 0,
    }
}

/// Every step either ignores the event (the state stays and nothing is asked
/// for) or moves strictly closer to the end, so a run finishes after at most
/// twelve answered events; and it asks to finish exactly when it becomes done.
pub proof fn lemma_game_update_progress(
    s: GameUpdate,
    e: GameUpdateEvent,
    s2: GameUpdate,
    a: GameUpdateAction,
)
    requires
        game_update_next(s, e, s2, a),
    ensures
        a is Idle ==> s2 == s,
        !(a is Idle) ==> game_update_rank(s2) < game_update_rank(s),
        (a is Finish) <==> (s2 is Done && !(s is Done)),
{
}

/// After a successful extraction the archive is cleaned up and then the
/// updated game is started, whatever the cleanup's result.
pub proof fn lemma_cleanup_always_starts_game(
    result: Result<(), String>,
    s2: GameUpdate,
    a: GameUpdateAction,
)
    requires
        game_update_next(GameUpdate::Cleaning, GameUpdateEvent::Removed(result), s2, a),
    ensures
        a == (GameUpdateAction::StartGame { updated: true }),
        s2 == (GameUpdate::Launching { updated: true }),
{
}

/// A run reports the game as started only in answer to the game having been
/// started: a `GameStarted` outcome answers `Launched(Ok(()))` in the state
/// that started the game, with the same `updated`.
pub proof fn lemma_started_outcome_only_after_launch(
    states: Seq<GameUpdate>,
    events: Seq<GameUpdateEvent>,
    actions: Seq<GameUpdateAction>,
    i: int,
    updated: bool,
)
    requires
        is_game_update_run(states, events, actions),
        0 <= i < events.len(),
        actions[i + 1] == (GameUpdateAction::Finish {
            outcome: GameUpdateOutcome::GameStarted { updated },
        }),
    ensures
        states[i] == (GameUpdate::Launching { updated }),
        events[i] matches GameUpdateEvent::Launched(Ok(_)),
{
    lemma_run_invariant(states, events, actions, i);
    assert(game_update_next(states[i], events[i], states[i + 1], actions[i + 1]));
}

/// The run stops at the updater check (`UpdaterReplaced`) only when the check
/// reported that the updater is being replaced (`Ok(true)`).
pub proof fn lemma_stops_for_updater_only_when_replaced(
    states: Seq<GameUpdate>,
    events: Seq<GameUpdateEvent>,
    actions: Seq<GameUpdateAction>,
    i: int,
)
    requires
        is_game_update_run(states, events, actions),
        0 <= i < events.len(),
        actions[i + 1] == (GameUpdateAction::Finish { outcome: GameUpdateOutcome::UpdaterReplaced }),
    ensures
        states[i] is CheckingUpdater,
        events[i] == GameUpdateEvent::UpdaterChecked(Ok(true)),
{
    lemma_run_invariant(states, events, actions, i);
    assert(game_update_next(states[i], events[i], states[i + 1], actions[i + 1]));
}

/// Any other result of the updater check, `Ok(false)` or any error, does not
/// stop the run: it goes on to look for the game.
pub proof fn lemma_updater_check_result_goes_on(
    r: Result<bool, SelfUpdateError>,
    s2: GameUpdate,
    a: GameUpdateAction,
)
    requires
        game_update_next(GameUpdate::CheckingUpdater, GameUpdateEvent::UpdaterChecked(r), s2, a),
        r != Ok::<bool, SelfUpdateError>(true),
    ensures
        a is LocateGame,
        s2 is LocatingGame,
{
}

/// The update configuration is fetched only when the published MD5 was read
/// and it differs (trimmed, both lowercased) from the game's MD5.
pub proof fn lemma_config_fetched_only_when_outdated(
    s: GameUpdate,
    e: GameUpdateEvent,
    s2: GameUpdate,
    a: GameUpdateAction,
)
    requires
        game_update_next(s, e, s2, a),
        a is FetchConfig,
    ensures
        s matches GameUpdate::FetchingRemoteMd5 { local } && e matches GameUpdateEvent::Fetched(
            FetchOutcome::Body(text),
        ) && local@ != lowercase(trimmed(text@)),
{
}

/// An unsuccessful status for the published MD5 ends the run with that
/// status.
pub proof fn lemma_remote_md5_status_ends_run(
    local: String,
    status: HttpStatus,
    s2: GameUpdate,
    a: GameUpdateAction,
)
    requires
        game_update_next(
            GameUpdate::FetchingRemoteMd5 { local },
            GameUpdateEvent::Fetched(FetchOutcome::Status(status)),
            s2,
            a,
        ),
    ensures
        a == (GameUpdateAction::Finish { outcome: GameUpdateOutcome::RemoteMd5Status(status) }),
        s2 is Done,
{
}

/// Once the game is found, its MD5 is computed; its lowercase form is then
/// compared with what the MD5 address publishes.
pub proof fn lemma_hashed_game_fetches_published_md5(
    hex: String,
    s2: GameUpdate,
    a: GameUpdateAction,
)
    requires
        game_update_next(GameUpdate::HashingGame, GameUpdateEvent::Hashed(Ok(hex)), s2, a),
    ensures
        s2 matches GameUpdate::FetchingRemoteMd5 { local } && local@ == lowercase(hex@),
        a matches GameUpdateAction::FetchRemoteMd5 { url } && url@ == MD5_URL@,
{
}

/// A game whose MD5 equals the published one (trimmed, both lowercased) is
/// started as it is.
pub proof fn lemma_current_game_started_as_is(
    local: String,
    text: String,
    s2: GameUpdate,
    a: GameUpdateAction,
)
    requires
        game_update_next(
            GameUpdate::FetchingRemoteMd5 { local },
            GameUpdateEvent::Fetched(FetchOutcome::Body(text)),
            s2,
            a,
        ),
        local@ == lowercase(trimmed(text@)),
    ensures
        a == (GameUpdateAction::StartGame { updated: false }),
        s2 == (GameUpdate::Launching { updated: false }),
{
}

/// A game whose MD5 differs from the published one leads to fetching the
/// update configuration.
pub proof fn lemma_outdated_game_fetches_config(
    local: String,
    text: String,
    s2: GameUpdate,
    a: GameUpdateAction,
)
    requires
        game_update_next(
            GameUpdate::FetchingRemoteMd5 { local },
            GameUpdateEvent::Fetched(FetchOutcome::Body(text)),
            s2,
            a,
        ),
        local@ != lowercase(trimmed(text@)),
    ensures
        a matches GameUpdateAction::FetchConfig { url } && url@ == APP_CONFIG_URL@,
        s2 is FetchingConfig,
{
}

/// The fetched configuration text is what gets parsed.
pub proof fn lemma_config_text_is_parsed(text: String, s2: GameUpdate, a: GameUpdateAction)
    requires
        game_update_next(
            GameUpdate::FetchingConfig,
            GameUpdateEvent::Fetched(FetchOutcome::Body(text)),
            s2,
            a,
        ),
    ensures
        a == (GameUpdateAction::ParseConfig { text }),
        s2 is ParsingConfig,
{
}

/// The archive that the configuration names is downloaded from the download
/// directory, and its MD5 is later checked against the configured one.
pub proof fn lemma_configured_archive_is_downloaded(
    config: AppConfig,
    s2: GameUpdate,
    a: GameUpdateAction,
)
    requires
        game_update_next(GameUpdate::ParsingConfig, GameUpdateEvent::ConfigParsed(Ok(config)), s2, a),
    ensures
        a matches GameUpdateAction::DownloadArchive { url, filename } && url@ == DOWNLOAD_BASE_URL@
            + config.filename@ && filename@ == config.filename@,
        s2 matches GameUpdate::Downloading { expected_md5 } && expected_md5@ == config.md5@,
{
}

/// A downloaded archive whose MD5 matches the configured one (both
/// lowercased) is extracted; one that does not is discarded.
pub proof fn lemma_archive_check(
    expected_md5: String,
    hex: String,
    s2: GameUpdate,
    a: GameUpdateAction,
)
    requires
        game_update_next(
            GameUpdate::HashingArchive { expected_md5 },
            GameUpdateEvent::Hashed(Ok(hex)),
            s2,
            a,
        ),
    ensures
        lowercase(hex@) == lowercase(expected_md5@) ==> (a is ExtractArchive && s2 is Extracting),
        lowercase(hex@) != lowercase(expected_md5@) ==> (a is DiscardArchive && s2
            == (GameUpdate::DiscardingArchive { outcome: GameUpdateOutcome::ArchiveMismatch })),
{
}

/// Every failure after the archive's download was asked for (download,
/// hashing or extraction failing, or a mismatching MD5) discards the archive
/// before the run ends with that failure.
pub proof fn lemma_archive_failure_discards(
    s: GameUpdate,
    e: GameUpdateEvent,
    s2: GameUpdate,
    a: GameUpdateAction,
)
    requires
        game_update_next(s, e, s2, a),
        archive_pending(s),
        !(a is Idle),
        !(a is HashArchive),
        !(a is ExtractArchive),
        !(a is RemoveArchive),
    ensures
        a is DiscardArchive,
        s2 matches GameUpdate::DiscardingArchive { outcome } && is_discard_outcome(outcome),
{
}

/// A run started after an update or as it is ends with the game's start
/// result: `GameStarted` when it started, `GameStartFailed` with the error
/// otherwise.
pub proof fn lemma_launch_result_reported(
    updated: bool,
    r: Result<(), String>,
    s2: GameUpdate,
    a: GameUpdateAction,
)
    requires
        game_update_next(GameUpdate::Launching { updated }, GameUpdateEvent::Launched(r), s2, a),
    ensures
        s2 is Done,
        r is Ok ==> a == (GameUpdateAction::Finish {
            outcome: GameUpdateOutcome::GameStarted { updated },
        }),
        r matches Err(m) ==> a == (GameUpdateAction::Finish {
            outcome: GameUpdateOutcome::GameStartFailed { updated, error: m },
        }),
{
}

} // verus!
