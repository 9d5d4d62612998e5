use seer_updater::http::{FetchOutcome, HttpStatus};
use seer_updater::naming::{UPDATER_DOWNLOAD_URL, UPDATER_SHA256_URL};
use seer_updater::self_update::{SelfUpdate, SelfUpdateAction, SelfUpdateError, SelfUpdateEvent};

const DIGEST: &str = "9f86d081884c7d659a2feaa0c55ad015a3bf4f1b2b0b822cd15d6c15b0f00a08";
const OTHER: &str = "0000000000000000000000000000000000000000000000000000000000000000";

fn listing(d: &str) -> SelfUpdateEvent {
    SelfUpdateEvent::Fetched(FetchOutcome::Body(format!("{}  updater.exe\n", d)))
}

fn hashed(d: &str) -> SelfUpdateEvent {
    SelfUpdateEvent::Hashed(Ok(d.to_string()))
}

fn at_checksum(installed: &str) -> SelfUpdate {
    let (s, a) = SelfUpdate::begin();
    assert!(matches!(a, SelfUpdateAction::HashInstalled));
    let (s, a) = s.step(hashed(installed));
    match a {
        SelfUpdateAction::FetchChecksum { url } => assert_eq!(url, UPDATER_SHA256_URL),
        other => panic!("unexpected {:?}", other),
    }
    s
}

#[test]
fn current_updater_is_kept() {
    let (_, a) = at_checksum(DIGEST).step(listing(DIGEST));
    assert!(matches!(a, SelfUpdateAction::Finish { result: Ok(false) }));
}

#[test]
fn installed_digest_is_compared_lowercased() {
    let (_, a) = at_checksum(&DIGEST.to_uppercase()).step(listing(DIGEST));
    assert!(matches!(a, SelfUpdateAction::Finish { result: Ok(false) }));
}

#[test]
fn verified_replacement_is_launched() {
    let (s, a) = at_checksum(OTHER).step(listing(&DIGEST.to_uppercase()));
    match a {
        SelfUpdateAction::DownloadReplacement { url } => assert_eq!(url, UPDATER_DOWNLOAD_URL),
        other => panic!("unexpected {:?}", other),
    }
    let (s, a) = s.step(SelfUpdateEvent::Downloaded(Ok(())));
    assert!(matches!(a, SelfUpdateAction::HashReplacement));
    let (s, a) = s.step(hashed(DIGEST));
    assert!(matches!(a, SelfUpdateAction::LaunchReplacement));
    let (s, a) = s.step(SelfUpdateEvent::Launched(Ok(())));
    assert!(matches!(a, SelfUpdateAction::Finish { result: Ok(true) }));
    assert!(matches!(s, SelfUpdate::Done));
}

#[test]
fn mismatching_replacement_is_discarded() {
    let (s, _) = at_checksum(OTHER).step(listing(DIGEST));
    let (s, _) = s.step(SelfUpdateEvent::Downloaded(Ok(())));
    let (s, a) = s.step(hashed(OTHER));
    assert!(matches!(a, SelfUpdateAction::DiscardReplacement));
    let (_, a) = s.step(SelfUpdateEvent::Discarded);
    assert!(matches!(
        a,
        SelfUpdateAction::Finish { result: Err(SelfUpdateError::ReplacementMismatch) }
    ));
}

#[test]
fn failed_download_is_discarded() {
    let (s, _) = at_checksum(OTHER).step(listing(DIGEST));
    let (s, a) = s.step(SelfUpdateEvent::Downloaded(Err("timed out".to_string())));
    assert!(matches!(a, SelfUpdateAction::DiscardReplacement));
    let (_, a) = s.step(SelfUpdateEvent::Discarded);
    match a {
        SelfUpdateAction::Finish { result: Err(SelfUpdateError::DownloadFailed(m)) } => {
            assert_eq!(m, "timed out")
        },
        other => panic!("unexpected {:?}", other),
    }
}

#[test]
fn failed_hash_of_replacement_is_not_discarded() {
    let (s, _) = at_checksum(OTHER).step(listing(DIGEST));
    let (s, _) = s.step(SelfUpdateEvent::Downloaded(Ok(())));
    let (_, a) = s.step(SelfUpdateEvent::Hashed(Err("denied".to_string())));
    assert!(matches!(
        a,
        SelfUpdateAction::Finish { result: Err(SelfUpdateError::HashFailed(_)) }
    ));
}

#[test]
fn unparsable_listing_fails() {
    let (_, a) = at_checksum(DIGEST).step(SelfUpdateEvent::Fetched(FetchOutcome::Body(
        "Not Found".to_string(),
    )));
    assert!(matches!(
        a,
        SelfUpdateAction::Finish { result: Err(SelfUpdateError::ChecksumUnparsable) }
    ));
}

#[test]
fn fetch_failures_end_the_check() {
    let (_, a) = at_checksum(DIGEST).step(SelfUpdateEvent::Fetched(FetchOutcome::Status(HttpStatus::new(404).unwrap())));
    match a {
        SelfUpdateAction::Finish { result: Err(SelfUpdateError::ChecksumStatus(s)) } => {
            assert_eq!(s.code(), 404)
        },
        other => panic!("unexpected {:?}", other),
    }
    let (_, a) = at_checksum(DIGEST).step(SelfUpdateEvent::Fetched(FetchOutcome::SendFailed(
        "dns".to_string(),
    )));
    assert!(matches!(
        a,
        SelfUpdateAction::Finish { result: Err(SelfUpdateError::ChecksumRequestFailed(_)) }
    ));
    let (_, a) = at_checksum(DIGEST).step(SelfUpdateEvent::Fetched(FetchOutcome::BodyFailed(
        "reset".to_string(),
    )));
    assert!(matches!(
        a,
        SelfUpdateAction::Finish { result: Err(SelfUpdateError::ChecksumBodyFailed(_)) }
    ));
}

#[test]
fn unreadable_updater_fails() {
    let (s, _) = SelfUpdate::begin();
    let (_, a) = s.step(SelfUpdateEvent::Hashed(Err("missing".to_string())));
    assert!(matches!(
        a,
        SelfUpdateAction::Finish { result: Err(SelfUpdateError::HashFailed(_)) }
    ));
}

#[test]
fn failed_launch_fails() {
    let (s, _) = at_checksum(OTHER).step(listing(DIGEST));
    let (s, _) = s.step(SelfUpdateEvent::Downloaded(Ok(())));
    let (s, _) = s.step(hashed(DIGEST));
    let (_, a) = s.step(SelfUpdateEvent::Launched(Err("spawn".to_string())));
    assert!(matches!(
        a,
        SelfUpdateAction::Finish { result: Err(SelfUpdateError::LaunchFailed(_)) }
    ));
}

#[test]
fn unexpected_event_changes_nothing() {
    let (s, _) = SelfUpdate::begin();
    let (s, a) = s.step(SelfUpdateEvent::Discarded);
    assert!(matches!(a, SelfUpdateAction::Idle));
    assert!(matches!(s, SelfUpdate::HashingInstalled));
}

#[test]
fn error_messages() {
    let status = HttpStatus::new(404).unwrap();
    assert_eq!(
        SelfUpdateError::ChecksumStatus(status).message(),
        "取得 updater.exe.sha256 失敗：HTTP 404 Not Found"
    );
    assert_eq!(SelfUpdateError::ChecksumUnparsable.message(), "無法解析 updater.exe.sha256");
    assert_eq!(
        SelfUpdateError::DownloadFailed("下載失敗，HTTP 狀態碼：500 Internal Server Error".to_string())
            .message(),
        "下載新版 updater.exe 失敗：下載失敗，HTTP 狀態碼：500 Internal Server Error"
    );
    assert_eq!(
        SelfUpdateError::ReplacementMismatch.message(),
        "新版 updater.exe SHA-256 驗證失敗！"
    );
    assert_eq!(SelfUpdateError::HashFailed("denied".to_string()).message(), "denied");
    assert_eq!(SelfUpdateError::ChecksumRequestFailed("dns".to_string()).message(), "dns");
    assert_eq!(SelfUpdateError::ChecksumBodyFailed("reset".to_string()).message(), "reset");
    assert_eq!(SelfUpdateError::LaunchFailed("spawn".to_string()).message(), "spawn");
}
