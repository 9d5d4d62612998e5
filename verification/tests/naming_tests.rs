use seer_updater::extract::{plan_entry, EntryPlan};
use seer_updater::http::{is_success_status, HttpStatus};
use seer_updater::naming::{
    archive_file_name, download_url, replace_script, temp_file_name, DOWNLOAD_BASE_URL,
    NEW_UPDATER_EXTENSION, NEW_UPDATER_PREFIX,
};
use seer_updater::text::push_decimal;

#[test]
fn temp_file_names() {
    assert_eq!(
        temp_file_name(NEW_UPDATER_PREFIX, 1_700_000_000_123, NEW_UPDATER_EXTENSION),
        "seer_updater_new_1700000000123.exe"
    );
    assert_eq!(temp_file_name("seer_updater_replace", 0, "bat"), "seer_updater_replace_0.bat");
    assert_eq!(temp_file_name("p", u128::MAX, "x"), format!("p_{}.x", u128::MAX));
}

#[test]
fn archive_names() {
    assert_eq!(archive_file_name(1_700_000_000, "game.zip"), "seer_update_1700000000_game.zip");
    assert_eq!(archive_file_name(7, ""), "seer_update_7_");
}

#[test]
fn decimal_numerals() {
    for n in [0u128, 9, 10, 99, 100, 1234567890, u64::MAX as u128] {
        let mut s = String::from("#");
        push_decimal(&mut s, n);
        assert_eq!(s, format!("#{}", n));
    }
}

#[test]
fn download_urls() {
    assert_eq!(download_url("seer_2024.zip"), "http://seerdf.61.com.tw/Assets/App/seer_2024.zip");
    assert_eq!(download_url(""), DOWNLOAD_BASE_URL);
}

#[test]
fn replacement_script() {
    let pid = 4242u32;
    let new_updater = r"C:\Temp\seer_updater_new_1.exe";
    let current_updater = r"D:\Games\Seer\updater.exe";
    let expected = format!(
        r#"@echo off
setlocal

echo Waiting for old updater to exit...

:wait
tasklist /FI "PID eq {pid}" 2>NUL | find "{pid}" >NUL
if not errorlevel 1 (
    timeout /t 1 /nobreak >NUL
    goto wait
)

echo Replacing updater...

copy /Y "{new_updater}" "{current_updater}" >NUL

if errorlevel 1 (
    echo Failed to replace updater.
    del /Q "{new_updater}" >NUL 2>&1
    del /Q "%~f0" >NUL 2>&1
    exit /b 1
)

echo Starting updated updater...

start "" "{current_updater}"

del /Q "{new_updater}" >NUL 2>&1
del /Q "%~f0" >NUL 2>&1

exit /b 0
"#,
        pid = pid,
        new_updater = new_updater,
        current_updater = current_updater,
    );
    assert_eq!(replace_script(pid, new_updater, current_updater), expected);
}

#[test]
fn success_statuses() {
    assert!(is_success_status(200));
    assert!(is_success_status(204));
    assert!(is_success_status(299));
    assert!(!is_success_status(199));
    assert!(!is_success_status(300));
    assert!(!is_success_status(404));
    assert!(!is_success_status(500));
}

#[test]
fn entry_plans() {
    assert_eq!(plan_entry(false, true), EntryPlan::Skip);
    assert_eq!(plan_entry(false, false), EntryPlan::Skip);
    assert_eq!(plan_entry(true, true), EntryPlan::CreateDirectory);
    assert_eq!(plan_entry(true, false), EntryPlan::WriteFile);
}

#[test]
fn names_of_different_times_differ() {
    let a = temp_file_name(NEW_UPDATER_PREFIX, 1_700_000_000_123, NEW_UPDATER_EXTENSION);
    let b = temp_file_name(NEW_UPDATER_PREFIX, 1_700_000_000_124, NEW_UPDATER_EXTENSION);
    let c = temp_file_name(NEW_UPDATER_PREFIX, 1_700_000_000_123, NEW_UPDATER_EXTENSION);
    assert_ne!(a, b);
    assert_eq!(a, c);
    assert_ne!(temp_file_name("p", 1, "x"), temp_file_name("p", 11, "x"));
    assert_ne!(archive_file_name(5, "a.zip"), archive_file_name(50, "a.zip"));
}

#[test]
fn status_lines() {
    assert_eq!(HttpStatus::new(404).unwrap().line(), "404 Not Found");
    assert_eq!(HttpStatus::new(200).unwrap().line(), "200 OK");
    assert_eq!(HttpStatus::new(599).unwrap().line(), "599 <unknown status code>");
    assert_eq!(HttpStatus::new(100).unwrap().code(), 100);
    assert_eq!(HttpStatus::new(999).unwrap().code(), 999);
    assert!(HttpStatus::new(99).is_none());
    assert!(HttpStatus::new(1000).is_none());
}
