//! The addresses the updater talks to, the names of its temporary files, and
//! the batch script that swaps in a new updater.
use vstd::prelude::*;
use vstd::string::StringExecFns;
use crate::text::{
    decimal, digits_value, push_char, push_decimal, lemma_decimal_injective, lemma_decimal_digits,
    lemma_decimal_value,
};

verus! {

/// Where the MD5 of the current game release is published.
pub const MD5_URL: &'static str =
    "https://raw.githubusercontent.com/blusewill/seer-pc-updater/refs/heads/master/current_version_md5";

/// The game's update configuration (version, archive name, MD5, size).
pub const APP_CONFIG_URL: &'static str = "https://seerdf.61.com.tw/Assets/App/appconfig.json";

/// The directory the update archives are downloaded from.
pub const DOWNLOAD_BASE_URL: &'static str = "http://seerdf.61.com.tw/Assets/App/";

/// The checksum listing of the latest updater release.
pub const UPDATER_SHA256_URL: &'static str =
    "https://github.com/blusewill/seer-pc-updater/releases/latest/download/updater.exe.sha256";

/// The latest updater release.
pub const UPDATER_DOWNLOAD_URL: &'static str =
    "https://github.com/blusewill/seer-pc-updater/releases/latest/download/updater.exe";

/// The prefix of the temporary file that receives a new updater.
pub const NEW_UPDATER_PREFIX: &'static str = "seer_updater_new";

/// The extension of the temporary file that receives a new updater.
pub const NEW_UPDATER_EXTENSION: &'static str = "exe";

/// The prefix of the temporary replacement script.
pub const SCRIPT_PREFIX: &'static str = "seer_updater_replace";

/// The extension of the temporary replacement script.
pub const SCRIPT_EXTENSION: &'static str = "bat";

/// The prefix of a temporary update archive's name.
pub const ARCHIVE_PREFIX: &'static str = "seer_update_";

/// `<prefix>_<timestamp>.<extension>`.
pub open spec fn temp_file_name_spec(prefix: Seq<char>, timestamp: nat, extension: Seq<char>) -> Seq<char> {
    prefix + seq!['_'] + decimal(timestamp) + seq!['.'] + extension
}

/// `name` is `prefix`, `_`, a numeral of `timestamp` (`k` digits), `.` and
/// `extension`.
pub open spec fn names_temp_file(
    name: Seq<char>,
    prefix: Seq<char>,
    timestamp: nat,
    extension: Seq<char>,
    k: int,
) -> bool {
    let p = prefix.len() as int;
    &&& name.len() == p + 1 + k + 1 + extension.len()
    &&& name.subrange(0, p) == prefix
    &&& name[p] == '_'
    &&& is_numeral_of(name.subrange(p + 1, p + 1 + k), timestamp)
    &&& name[p + 1 + k] == '.'
    &&& name.subrange(p + 2 + k, name.len() as int) == extension
}

/// A temporary file's name is the prefix, an underscore, the timestamp in
/// decimal, a dot and the extension.
pub proof fn lemma_temp_file_name_shape(prefix: Seq<char>, timestamp: nat, extension: Seq<char>)
    ensures
        exists|k: int| #[trigger]
            names_temp_file(
                temp_file_name_spec(prefix, timestamp, extension),
                prefix,
                timestamp,
                extension,
                k,
            ),
{
    let t = temp_file_name_spec(prefix, timestamp, extension);
    let d = decimal(timestamp);
    let k = d.len() as int;
    let p = prefix.len() as int;
    lemma_decimal_digits(timestamp);
    lemma_decimal_value(timestamp);
    assert(t.subrange(0, p) =~= prefix);
    assert(t[p] == '_');
    assert(t.subrange(p + 1, p + 1 + k) =~= d);
    assert(t[p + 1 + k] == '.');
    assert(t.subrange(p + 2 + k, t.len() as int) =~= extension);
    assert(names_temp_file(t, prefix, timestamp, extension, k));
}

/// The name of a temporary file made at `timestamp` (milliseconds since the
/// Unix epoch): `<prefix>_<timestamp>.<extension>`.
pub fn temp_file_name(prefix: &str, timestamp: u128, extension: &str) -> (r: String)
    ensures
        r@ == temp_file_name_spec(prefix@, timestamp as nat, extension@),
        exists|k: int| #[trigger] names_temp_file(r@, prefix@, timestamp as nat, extension@, k),
{
    proof {
        lemma_temp_file_name_shape(prefix@, timestamp as nat, extension@);
    }
    let mut r = String::from_str(prefix);
    push_char(&mut r, '_');
    push_decimal(&mut r, timestamp);
    push_char(&mut r, '.');
    r.append(extension);
    r
}

/// `seer_update_<timestamp>_<file name>`.
pub open spec fn archive_file_name_spec(timestamp: nat, filename: Seq<char>) -> Seq<char> {
    ARCHIVE_PREFIX@ + decimal(timestamp) + seq!['_'] + filename
}

/// `name` is `seer_update_`, a numeral of `timestamp` (`k` digits), `_` and
/// `filename`.
pub open spec fn names_archive_copy(name: Seq<char>, timestamp: nat, filename: Seq<char>, k: int) -> bool {
    let p = ARCHIVE_PREFIX@.len() as int;
    &&& name.len() == p + k + 1 + filename.len()
    &&& name.subrange(0, p) == ARCHIVE_PREFIX@
    &&& is_numeral_of(name.subrange(p, p + k), timestamp)
    &&& name[p + k] == '_'
    &&& name.subrange(p + k + 1, name.len() as int) == filename
}

/// A temporary archive copy's name is `seer_update_`, the timestamp in
/// decimal, an underscore and the archive's name.
pub proof fn lemma_archive_file_name_shape(timestamp: nat, filename: Seq<char>)
    ensures
        exists|k: int| #[trigger]
            names_archive_copy(archive_file_name_spec(timestamp, filename), timestamp, filename, k),
{
    let t = archive_file_name_spec(timestamp, filename);
    let d = decimal(timestamp);
    let k = d.len() as int;
    let p = ARCHIVE_PREFIX@.len() as int;
    lemma_decimal_digits(timestamp);
    lemma_decimal_value(timestamp);
    assert(t.subrange(0, p) =~= ARCHIVE_PREFIX@);
    assert(t.subrange(p, p + k) =~= d);
    assert(t[p + k] == '_');
    assert(t.subrange(p + k + 1, t.len() as int) =~= filename);
    assert(names_archive_copy(t, timestamp, filename, k));
}

/// The name of the temporary copy of the update archive `filename`, made at
/// `timestamp` (seconds since the Unix epoch).
pub fn archive_file_name(timestamp: u64, filename: &str) -> (r: String)
    ensures
        r@ == archive_file_name_spec(timestamp as nat, filename@),
        exists|k: int| #[trigger] names_archive_copy(r@, timestamp as nat, filename@, k),
{
    proof {
        lemma_archive_file_name_shape(timestamp as nat, filename@);
    }
    let mut r = String::from_str(ARCHIVE_PREFIX);
    push_decimal(&mut r, timestamp as u128);
    push_char(&mut r, '_');
    r.append(filename);
    r
}

/// Where the update archive `filename` is downloaded from.
pub fn download_url(filename: &str) -> (r: String)
    ensures
        r@ == DOWNLOAD_BASE_URL@ + filename@,
{
    let mut r = String::from_str(DOWNLOAD_BASE_URL);
    r.append(filename);
    r
}

/// The replacement script up to the process id it waits for.
pub const SCRIPT_START: &'static str =
    "@echo off\nsetlocal\n\necho Waiting for old updater to exit...\n\n:wait\ntasklist /FI \"PID eq ";

/// The replacement script between the two occurrences of the process id.
pub const SCRIPT_AFTER_PID: &'static str = "\" 2>NUL | find \"";

/// The replacement script from the second process id to the copied file.
pub const SCRIPT_BEFORE_COPY: &'static str =
    "\" >NUL\nif not errorlevel 1 (\n    timeout /t 1 /nobreak >NUL\n    goto wait\n)\n\necho Replacing updater...\n\ncopy /Y \"";

/// The replacement script between the copied file and its destination.
pub const SCRIPT_COPY_TARGET: &'static str = "\" \"";

/// The replacement script from the copy's destination to the deletion on failure.
pub const SCRIPT_ON_FAILURE: &'static str =
    "\" >NUL\n\nif errorlevel 1 (\n    echo Failed to replace updater.\n    del /Q \"";

/// The replacement script from the deletion on failure to the started updater.
pub const SCRIPT_BEFORE_START: &'static str =
    "\" >NUL 2>&1\n    del /Q \"%~f0\" >NUL 2>&1\n    exit /b 1\n)\n\necho Starting updated updater...\n\nstart \"\" \"";

/// The replacement script from the started updater to the final deletion.
pub const SCRIPT_BEFORE_CLEANUP: &'static str = "\"\n\ndel /Q \"";

/// The end of the replacement script.
pub const SCRIPT_END: &'static str = "\" >NUL 2>&1\ndel /Q \"%~f0\" >NUL 2>&1\n\nexit /b 0\n";

/// The batch script that waits for process `pid` to exit, copies
/// `new_updater` over `current_updater`, starts it, and deletes the new copy
/// and itself (on a failed copy it deletes both and exits with status 1).
pub open spec fn replace_script_spec(pid: nat, new_updater: Seq<char>, current_updater: Seq<char>) -> Seq<char> {
    SCRIPT_START@ + decimal(pid) + SCRIPT_AFTER_PID@ + decimal(pid) + SCRIPT_BEFORE_COPY@
        + new_updater + SCRIPT_COPY_TARGET@ + current_updater + SCRIPT_ON_FAILURE@ + new_updater
        + SCRIPT_BEFORE_START@ + current_updater + SCRIPT_BEFORE_CLEANUP@ + new_updater
        + SCRIPT_END@
}

/// `s` is a decimal numeral (one or more digits `0-9`) denoting `n`.
pub open spec fn is_numeral_of(s: Seq<char>, n: nat) -> bool {
    &&& s.len() > 0
    &&& forall|i: int| 0 <= i < s.len() ==> '0' <= #[trigger] s[i] && s[i] <= '9'
    &&& digits_value(s) == n
}

/// `t` opens with the script's wait loop for process `pid`, whose numeral is
/// `k` characters long: the opening text, the numeral of `pid`, the text
/// between the two mentions, the numeral again, and the start of the copy.
pub open spec fn waits_for_pid(t: Seq<char>, pid: nat, k: int) -> bool {
    let a = SCRIPT_START@.len() as int;
    let b = SCRIPT_AFTER_PID@.len() as int;
    let c = SCRIPT_BEFORE_COPY@.len() as int;
    &&& k > 0
    &&& t.len() >= a + k + b + k + c
    &&& t.subrange(0, a) == SCRIPT_START@
    &&& is_numeral_of(t.subrange(a, a + k), pid)
    &&& t.subrange(a + k, a + k + b) == SCRIPT_AFTER_PID@
    &&& is_numeral_of(t.subrange(a + k + b, a + k + b + k), pid)
    &&& t.subrange(a + k + b + k, a + k + b + k + c) == SCRIPT_BEFORE_COPY@
}

/// After a wait loop whose numeral is `k` characters long, `t` copies
/// `new_updater` over `current_updater`.
pub open spec fn copies_over(t: Seq<char>, k: int, new_updater: Seq<char>, current_updater: Seq<char>) -> bool {
    let o = SCRIPT_START@.len() + k + SCRIPT_AFTER_PID@.len() + k + SCRIPT_BEFORE_COPY@.len();
    let q = o + new_updater.len() + SCRIPT_COPY_TARGET@.len();
    &&& t.len() >= q + current_updater.len()
    &&& t.subrange(o, o + new_updater.len()) == new_updater
    &&& t.subrange(o + new_updater.len(), q) == SCRIPT_COPY_TARGET@
    &&& t.subrange(q, q + current_updater.len()) == current_updater
}

/// The replacement script waits for exactly the process it is given (both
/// mentions of the process id in its wait loop are numerals of `pid`), and
/// then copies the new updater over the current one.
pub proof fn lemma_replace_script_waits_for_pid(
    pid: nat,
    new_updater: Seq<char>,
    current_updater: Seq<char>,
)
    ensures
        exists|k: int| #[trigger]
            waits_for_pid(replace_script_spec(pid, new_updater, current_updater), pid, k)
                && copies_over(
                replace_script_spec(pid, new_updater, current_updater),
                k,
                new_updater,
                current_updater,
            ),
{
    let t = replace_script_spec(pid, new_updater, current_updater);
    let d = decimal(pid);
    let k = d.len() as int;
    let a = SCRIPT_START@.len() as int;
    let b = SCRIPT_AFTER_PID@.len() as int;
    let c = SCRIPT_BEFORE_COPY@.len() as int;
    lemma_decimal_digits(pid);
    lemma_decimal_value(pid);
    let head = SCRIPT_START@ + d + SCRIPT_AFTER_PID@ + d + SCRIPT_BEFORE_COPY@;
    let rest = new_updater + SCRIPT_COPY_TARGET@ + current_updater + SCRIPT_ON_FAILURE@ + new_updater
        + SCRIPT_BEFORE_START@ + current_updater + SCRIPT_BEFORE_CLEANUP@ + new_updater
        + SCRIPT_END@;
    assert(t =~= head + rest);
    assert(t.subrange(0, a) =~= SCRIPT_START@);
    assert(t.subrange(a, a + k) =~= d);
    assert(t.subrange(a + k, a + k + b) =~= SCRIPT_AFTER_PID@);
    assert(t.subrange(a + k + b, a + k + b + k) =~= d);
    assert(t.subrange(a + k + b + k, a + k + b + k + c) =~= SCRIPT_BEFORE_COPY@);
    assert(waits_for_pid(t, pid, k));
    let o = a + k + b + k + c;
    let q = o + new_updater.len() + SCRIPT_COPY_TARGET@.len();
    assert(t.subrange(o, o + new_updater.len()) =~= new_updater);
    assert(t.subrange(o + new_updater.len(), q) =~= SCRIPT_COPY_TARGET@);
    assert(t.subrange(q, q + current_updater.len()) =~= current_updater);
    assert(copies_over(t, k, new_updater, current_updater));
}

/// The replacement script for the updater running as process `pid`.
pub fn replace_script(pid: u32, new_updater: &str, current_updater: &str) -> (r: String)
    ensures
        r@ == replace_script_spec(pid as nat, new_updater@, current_updater@),
        exists|k: int| #[trigger]
            waits_for_pid(r@, pid as nat, k) && copies_over(r@, k, new_updater@, current_updater@),
{
    proof {
        lemma_replace_script_waits_for_pid(pid as nat, new_updater@, current_updater@);
    }
    let mut r = String::from_str(SCRIPT_START);
    push_decimal(&mut r, pid as u128);
    r.append(SCRIPT_AFTER_PID);
    push_decimal(&mut r, pid as u128);
    r.append(SCRIPT_BEFORE_COPY);
    r.append(new_updater);
    r.append(SCRIPT_COPY_TARGET);
    r.append(current_updater);
    r.append(SCRIPT_ON_FAILURE);
    r.append(new_updater);
    r.append(SCRIPT_BEFORE_START);
    r.append(current_updater);
    r.append(SCRIPT_BEFORE_CLEANUP);
    r.append(new_updater);
    r.append(SCRIPT_END);
    r
}

/// Two temporary files with the same prefix and extension get the same name
/// exactly when they are made in the same millisecond.
pub proof fn lemma_temp_file_name_injective(
    prefix: Seq<char>,
    extension: Seq<char>,
    t1: nat,
    t2: nat,
)
    ensures
        (temp_file_name_spec(prefix, t1, extension) == temp_file_name_spec(prefix, t2, extension))
            <==> (t1 == t2),
{
    let a = decimal(t1);
    let b = decimal(t2);
    let x = temp_file_name_spec(prefix, t1, extension);
    let y = temp_file_name_spec(prefix, t2, extension);
    if x == y {
        let k = prefix.len() + 1int;
        assert(x.len() == prefix.len() + 1 + a.len() + 1 + extension.len());
        assert(y.len() == prefix.len() + 1 + b.len() + 1 + extension.len());
        assert(a.len() == b.len());
        assert(x.subrange(k, k + a.len() as int) =~= a);
        assert(y.subrange(k, k + b.len() as int) =~= b);
        lemma_decimal_injective(t1, t2);
    }
}

/// Two temporary copies of the same archive get the same name exactly when
/// they are made in the same second.
pub proof fn lemma_archive_file_name_injective(filename: Seq<char>, t1: nat, t2: nat)
    ensures
        (archive_file_name_spec(t1, filename) == archive_file_name_spec(t2, filename)) <==> (t1
            == t2),
{
    let a = decimal(t1);
    let b = decimal(t2);
    let x = archive_file_name_spec(t1, filename);
    let y = archive_file_name_spec(t2, filename);
    if x == y {
        let k = ARCHIVE_PREFIX@.len() as int;
        assert(x.len() == ARCHIVE_PREFIX@.len() + a.len() + 1 + filename.len());
        assert(y.len() == ARCHIVE_PREFIX@.len() + b.len() + 1 + filename.len());
        assert(a.len() == b.len());
        assert(x.subrange(k, k + a.len() as int) =~= a);
        assert(y.subrange(k, k + b.len() as int) =~= b);
        lemma_decimal_injective(t1, t2);
    }
}

} // verus!
