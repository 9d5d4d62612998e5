use seer_updater::game_update::{
    AppConfig, GameLocation, GameUpdate, GameUpdateAction, GameUpdateEvent, GameUpdateOutcome,
};
use seer_updater::http::{FetchOutcome, HttpStatus};
use seer_updater::naming::{APP_CONFIG_URL, MD5_URL};
use seer_updater::self_update::SelfUpdateError;

const LOCAL: &str = "5d41402abc4b2a76b9719d911017c592";
const ARCHIVE: &str = "d41d8cd98f00b204e9800998ecf8427e";

fn config() -> AppConfig {
    AppConfig {
        version: "2024.1".to_string(),
        filename: "seer_2024.zip".to_string(),
        md5: ARCHIVE.to_uppercase(),
        size: 1024,
    }
}

fn at_remote_md5() -> GameUpdate {
    let (s, a) = GameUpdate::begin();
    assert!(matches!(a, GameUpdateAction::CheckUpdater));
    let (s, a) = s.step(GameUpdateEvent::UpdaterChecked(Ok(false)));
    assert!(matches!(a, GameUpdateAction::LocateGame));
    let (s, a) = s.step(GameUpdateEvent::Located(GameLocation::Found));
    assert!(matches!(a, GameUpdateAction::HashGame));
    let (s, a) = s.step(GameUpdateEvent::Hashed(Ok(LOCAL.to_string())));
    match a {
        GameUpdateAction::FetchRemoteMd5 { url } => assert_eq!(url, MD5_URL),
        other => panic!("unexpected {:?}", other),
    }
    s
}

fn at_download() -> GameUpdate {
    let (s, a) = at_remote_md5().step(GameUpdateEvent::Fetched(FetchOutcome::Body(
        "AAAA\n".to_string(),
    )));
    match a {
        GameUpdateAction::FetchConfig { url } => assert_eq!(url, APP_CONFIG_URL),
        other => panic!("unexpected {:?}", other),
    }
    let (s, a) = s.step(GameUpdateEvent::Fetched(FetchOutcome::Body("{}".to_string())));
    match a {
        GameUpdateAction::ParseConfig { text } => assert_eq!(text, "{}"),
        other => panic!("unexpected {:?}", other),
    }
    let (s, a) = s.step(GameUpdateEvent::ConfigParsed(Ok(config())));
    match a {
        GameUpdateAction::DownloadArchive { url, filename } => {
            assert_eq!(url, "http://seerdf.61.com.tw/Assets/App/seer_2024.zip");
            assert_eq!(filename, "seer_2024.zip");
        },
        other => panic!("unexpected {:?}", other),
    }
    s
}

#[test]
fn up_to_date_game_is_started_directly() {
    let (s, a) = at_remote_md5().step(GameUpdateEvent::Fetched(FetchOutcome::Body(format!(
        "  {}\r\n",
        LOCAL.to_uppercase()
    ))));
    assert!(matches!(a, GameUpdateAction::StartGame { updated: false }));
    let (_, a) = s.step(GameUpdateEvent::Launched(Ok(())));
    assert!(matches!(
        a,
        GameUpdateAction::Finish { outcome: GameUpdateOutcome::GameStarted { updated: false } }
    ));
}

#[test]
fn full_update() {
    let (s, a) = at_download().step(GameUpdateEvent::Downloaded(Ok(())));
    assert!(matches!(a, GameUpdateAction::HashArchive));
    let (s, a) = s.step(GameUpdateEvent::Hashed(Ok(ARCHIVE.to_string())));
    assert!(matches!(a, GameUpdateAction::ExtractArchive));
    let (s, a) = s.step(GameUpdateEvent::Extracted(Ok(())));
    assert!(matches!(a, GameUpdateAction::RemoveArchive));
    let (s, a) = s.step(GameUpdateEvent::Removed(Err("busy".to_string())));
    assert!(matches!(a, GameUpdateAction::StartGame { updated: true }));
    let (s, a) = s.step(GameUpdateEvent::Launched(Ok(())));
    assert!(matches!(
        a,
        GameUpdateAction::Finish { outcome: GameUpdateOutcome::GameStarted { updated: true } }
    ));
    assert!(matches!(s, GameUpdate::Done));
}

#[test]
fn corrupt_archive_is_discarded() {
    let (s, _) = at_download().step(GameUpdateEvent::Downloaded(Ok(())));
    let (s, a) = s.step(GameUpdateEvent::Hashed(Ok(LOCAL.to_string())));
    assert!(matches!(a, GameUpdateAction::DiscardArchive));
    let (_, a) = s.step(GameUpdateEvent::Removed(Ok(())));
    assert!(matches!(
        a,
        GameUpdateAction::Finish { outcome: GameUpdateOutcome::ArchiveMismatch }
    ));
}

#[test]
fn failed_archive_download_is_discarded() {
    let (s, a) = at_download().step(GameUpdateEvent::Downloaded(Err("HTTP 404".to_string())));
    assert!(matches!(a, GameUpdateAction::DiscardArchive));
    let (_, a) = s.step(GameUpdateEvent::Removed(Err("gone".to_string())));
    assert!(matches!(
        a,
        GameUpdateAction::Finish { outcome: GameUpdateOutcome::DownloadFailed(_) }
    ));
}

#[test]
fn failed_extraction_is_discarded() {
    let (s, _) = at_download().step(GameUpdateEvent::Downloaded(Ok(())));
    let (s, _) = s.step(GameUpdateEvent::Hashed(Ok(ARCHIVE.to_string())));
    let (s, a) = s.step(GameUpdateEvent::Extracted(Err("bad zip".to_string())));
    assert!(matches!(a, GameUpdateAction::DiscardArchive));
    let (_, a) = s.step(GameUpdateEvent::Removed(Ok(())));
    assert!(matches!(
        a,
        GameUpdateAction::Finish { outcome: GameUpdateOutcome::ExtractFailed(_) }
    ));
}

#[test]
fn failed_archive_hash_is_discarded() {
    let (s, _) = at_download().step(GameUpdateEvent::Downloaded(Ok(())));
    let (s, a) = s.step(GameUpdateEvent::Hashed(Err("io".to_string())));
    assert!(matches!(a, GameUpdateAction::DiscardArchive));
    let (_, a) = s.step(GameUpdateEvent::Removed(Ok(())));
    assert!(matches!(
        a,
        GameUpdateAction::Finish { outcome: GameUpdateOutcome::ArchiveHashFailed(_) }
    ));
}

#[test]
fn replaced_updater_stops_the_run() {
    let (s, _) = GameUpdate::begin();
    let (s, a) = s.step(GameUpdateEvent::UpdaterChecked(Ok(true)));
    assert!(matches!(
        a,
        GameUpdateAction::Finish { outcome: GameUpdateOutcome::UpdaterReplaced }
    ));
    assert!(matches!(s, GameUpdate::Done));
}

#[test]
fn failed_updater_check_does_not_block_the_game() {
    let (s, _) = GameUpdate::begin();
    let (_, a) = s.step(GameUpdateEvent::UpdaterChecked(Err(SelfUpdateError::ChecksumUnparsable)));
    assert!(matches!(a, GameUpdateAction::LocateGame));
}

#[test]
fn missing_game_ends_the_run() {
    let (s, _) = GameUpdate::begin();
    let (s, _) = s.step(GameUpdateEvent::UpdaterChecked(Ok(false)));
    let (_, a) = s.step(GameUpdateEvent::Located(GameLocation::GameMissing));
    assert!(matches!(a, GameUpdateAction::Finish { outcome: GameUpdateOutcome::GameMissing }));
    let (s, _) = GameUpdate::begin();
    let (s, _) = s.step(GameUpdateEvent::UpdaterChecked(Ok(false)));
    let (_, a) = s.step(GameUpdateEvent::Located(GameLocation::NoGameDir));
    assert!(matches!(a, GameUpdateAction::Finish { outcome: GameUpdateOutcome::GameDirUnknown }));
}

#[test]
fn remote_md5_failures_end_the_run() {
    let (_, a) = at_remote_md5().step(GameUpdateEvent::Fetched(FetchOutcome::Status(HttpStatus::new(503).unwrap())));
    match a {
        GameUpdateAction::Finish { outcome: GameUpdateOutcome::RemoteMd5Status(s) } => {
            assert_eq!(s.code(), 503)
        },
        other => panic!("unexpected {:?}", other),
    }
    let (_, a) = at_remote_md5().step(GameUpdateEvent::Fetched(FetchOutcome::SendFailed(
        "dns".to_string(),
    )));
    assert!(matches!(
        a,
        GameUpdateAction::Finish { outcome: GameUpdateOutcome::RemoteMd5RequestFailed(_) }
    ));
}

#[test]
fn invalid_config_ends_the_run() {
    let (s, _) = at_remote_md5().step(GameUpdateEvent::Fetched(FetchOutcome::Body(
        "other".to_string(),
    )));
    let (s, _) = s.step(GameUpdateEvent::Fetched(FetchOutcome::Body("[]".to_string())));
    let (_, a) = s.step(GameUpdateEvent::ConfigParsed(Err("expected object".to_string())));
    assert!(matches!(
        a,
        GameUpdateAction::Finish { outcome: GameUpdateOutcome::ConfigInvalid(_) }
    ));
}

#[test]
fn failed_game_start_is_reported() {
    let (s, _) = at_remote_md5().step(GameUpdateEvent::Fetched(FetchOutcome::Body(
        LOCAL.to_string(),
    )));
    let (_, a) = s.step(GameUpdateEvent::Launched(Err("denied".to_string())));
    match a {
        GameUpdateAction::Finish {
            outcome: GameUpdateOutcome::GameStartFailed { updated: false, error },
        } => assert_eq!(error, "denied"),
        other => panic!("unexpected {:?}", other),
    }
}

#[test]
fn unexpected_event_leaves_run_unchanged() {
    let (s, a) = at_remote_md5().step(GameUpdateEvent::Removed(Ok(())));
    assert!(matches!(a, GameUpdateAction::Idle));
    assert!(matches!(s, GameUpdate::FetchingRemoteMd5 { .. }));
}
