//! Names and places of packaged build output.
//!
//! An artifact of project `P` made at time `T` is the file
//! `<name>-<YYYYMMDD-HHMMSS>.zip` (the project's name with spaces turned
//! into `-`, the UTC time of `T`), stored under `<data>/artifacts/<P>/`; a
//! name that would put the file outside that directory is refused.

use vstd::prelude::*;
use crate::paths::{
    artifact_path_spec, artifact_paths, artifacts_dir_spec, check_stays_inside, in_dir, stays_inside,
};
use crate::text::{concat2, concat3, digit, replace_char, replaced};

verus! {

#[verifier::external_type_specification]
#[verifier::external_body]
pub struct ExNaiveDateTime(chrono::NaiveDateTime);

/// The last second of the year 9999, UTC, in seconds since the epoch.
pub open spec fn last_second_of_9999() -> int {
    253402300799
}

/// The format of the time in an artifact's name: `YYYYMMDD-HHMMSS`.
pub open spec fn stamp_format() -> Seq<char> {
    "%Y%m%d-%H%M%S"@
}

/// The text that `chrono` formats the UTC time `secs` seconds after the
/// epoch into, with the format string `fmt`.
pub uninterp spec fn chrono_utc_format(secs: int, fmt: Seq<char>) -> Seq<char>;

/// The proleptic Gregorian date (year, month, day) of the UTC day that
/// holds the time `secs` seconds after the epoch, for `secs >= 0`: day
/// counts are shifted to start on 1 March 0000, split into 400-year eras,
/// then into years of the era, then into months of 153-day five-month
/// cycles.
pub open spec fn civil_date(secs: int) -> (int, int, int) {
    let days = secs / 86400;
    let z = days + 719468;
    let era = z / 146097;
    let doe = z - era * 146097;
    let yoe = (doe - doe / 1460 + doe / 36524 - doe / 146096) / 365;
    let doy = doe - (365 * yoe + yoe / 4 - yoe / 100);
    let mp = (5 * doy + 2) / 153;
    let d = doy - (153 * mp + 2) / 5 + 1;
    let m = if mp < 10 {
        mp + 3
    } else {
        mp - 9
    };
    let y = yoe + era * 400 + if m <= 2 {
        1int
    } else {
        0int
    };
    (y, m, d)
}

/// `n` in `0..100` as two digits.
pub open spec fn two_digits(n: int) -> Seq<char> {
    seq![digit(n / 10), digit(n % 10)]
}

/// `n` in `0..10000` as four digits.
pub open spec fn four_digits(n: int) -> Seq<char> {
    seq![digit(n / 1000), digit(n / 100 % 10), digit(n / 10 % 10), digit(n % 10)]
}

/// The UTC time `secs` seconds after the epoch as `YYYYMMDD-HHMMSS`.
pub open spec fn utc_stamp(secs: int) -> Seq<char> {
    let (y, m, d) = civil_date(secs);
    let t = secs % 86400;
    four_digits(y) + two_digits(m) + two_digits(d) + seq!['-'] + two_digits(t / 3600)
        + two_digits(t % 3600 / 60) + two_digits(t % 60)
}

/// A UTC time, with the seconds since the epoch it was made from.
pub struct UtcTime {
    secs: i64,
    dt: chrono::NaiveDateTime,
}

impl UtcTime {
    pub closed spec fn secs(&self) -> int {
        self.secs as int
    }
}

/// `chrono::DateTime::<Utc>::from_timestamp` with no nanoseconds, kept as
/// its naive UTC date and time: the UTC time `secs` seconds after the
/// epoch, `None` out of chrono's range.
/// Claimed: the result keeps `secs`, and every second from the epoch to the
/// end of the year 9999 is in range.
#[verifier::external_body]
fn utc_time(secs: i64) -> (res: Option<UtcTime>)
    ensures
        res matches Some(t) ==> t.secs() == secs,
        0 <= secs <= last_second_of_9999() ==> res is Some,
{
    match chrono::DateTime::<chrono::Utc>::from_timestamp(secs, 0) {
        Some(dt) => Some(UtcTime { secs, dt: dt.naive_utc() }),
        None => None,
    }
}

/// `chrono::NaiveDateTime::format` with the artifact format, written out.
/// Claimed: the result is the named function of the time and format; for
/// times from the epoch to the end of 9999 it is the Gregorian year as four
/// digits, month and day as two (`%Y%m%d`), `-`, and the hour, minute and
/// second of the day as two digits each (`%H%M%S`).
#[verifier::external_body]
fn format_utc(t: &UtcTime, fmt: &str) -> (res: String)
    requires
        fmt@ == stamp_format(),
    ensures
        res@ == chrono_utc_format(t.secs(), fmt@),
        0 <= t.secs() <= last_second_of_9999() ==> res@ == utc_stamp(t.secs()),
{
    t.dt.format(fmt).to_string()
}

/// The UTC time `secs` seconds after the epoch as `YYYYMMDD-HHMMSS`;
/// `None` where chrono cannot represent it.
pub fn timestamp_stamp(secs: i64) -> (res: Option<String>)
    ensures
        res matches Some(s) ==> s@ == chrono_utc_format(secs as int, stamp_format()),
        0 <= secs <= last_second_of_9999() ==> (res matches Some(s) && s@ == utc_stamp(secs as int)),
{
    match utc_time(secs) {
        Some(t) => Some(format_utc(&t, "%Y%m%d-%H%M%S")),
        None => None,
    }
}

/// The file name of an artifact of the project named `project_name`, made
/// at the time whose stamp is `stamp`: `<name>-<stamp>.zip`, the name's
/// spaces turned into `-`.
pub open spec fn artifact_file_name_spec(project_name: Seq<char>, stamp: Seq<char>) -> Seq<char> {
    replaced(project_name, ' ', '-') + "-"@ + stamp + ".zip"@
}

/// The file name of an artifact of the project named `project_name`, made
/// at the time whose stamp is `stamp`.
pub fn artifact_file_name(project_name: &str, stamp: &str) -> (res: String)
    ensures
        res@ == artifact_file_name_spec(project_name@, stamp@),
{
    let base = replace_char(project_name, ' ', '-');
    let head = concat3(base.as_str(), "-", stamp);
    let filename = concat2(head.as_str(), ".zip");
    assert(filename@ =~= artifact_file_name_spec(project_name@, stamp@));
    filename
}

/// Where an artifact goes.
#[derive(Debug, Clone)]
pub struct ArtifactPlan {
    /// The file name, `<name>-<stamp>.zip`.
    pub filename: String,
    /// The file to write, `<data>/artifacts/<project-id>/<file>`.
    pub out_path: String,
}

/// Why an artifact could not be planned.
#[derive(Debug, Clone, Copy, PartialEq, Eq, Structural)]
pub enum ArtifactError {
    /// chrono cannot represent the time.
    TimeOutOfRange,
    /// The file name, made from the project's name, starts with `/` or has a
    /// `..` component, so the zip would land outside the project's artifact
    /// directory.
    NameLeavesDirectory,
}

impl ArtifactError {
    /// The text with which packaging is refused.
    pub fn message(&self) -> (res: String)
        ensures
            *self == ArtifactError::TimeOutOfRange ==> res@ == "time out of range"@,
            *self == ArtifactError::NameLeavesDirectory ==> res@
                == "project name would place the artifact outside its directory"@,
    {
        match self {
            ArtifactError::TimeOutOfRange => "time out of range".to_owned(),
            ArtifactError::NameLeavesDirectory => "project name would place the artifact outside its directory".to_owned(),
        }
    }
}

/// The file name and storage path of an artifact of a project, made `secs`
/// seconds after the epoch. Refused where chrono cannot represent the time,
/// and where the file name would leave the project's artifact directory
/// (it starts with `/` or has a `..` component); otherwise the zip lies
/// inside `<data>/artifacts/<project-id>/`.
pub fn plan_artifact(data_root: &str, project_id: &str, project_name: &str, secs: i64) -> (res:
    Result<ArtifactPlan, ArtifactError>)
    ensures
        0 <= secs <= last_second_of_9999() ==> {
            &&& !(res matches Err(ArtifactError::TimeOutOfRange))
            &&& res is Ok <==> stays_inside(
                artifact_file_name_spec(project_name@, utc_stamp(secs as int)),
            )
            &&& res matches Ok(p) ==> p.filename@ == artifact_file_name_spec(
                project_name@,
                utc_stamp(secs as int),
            )
        },
        res matches Err(ArtifactError::NameLeavesDirectory) ==> !stays_inside(
            artifact_file_name_spec(project_name@, chrono_utc_format(secs as int, stamp_format())),
        ),
        res matches Ok(p) ==> {
            &&& p.filename@ == artifact_file_name_spec(
                project_name@,
                chrono_utc_format(secs as int, stamp_format()),
            )
            &&& stays_inside(p.filename@)
            &&& p.out_path@ == artifact_path_spec(data_root@, project_id@, p.filename@)
            &&& p.out_path@ == in_dir(artifacts_dir_spec(data_root@, project_id@), p.filename@)
        },
{
    let stamp = match timestamp_stamp(secs) {
        Some(s) => s,
        None => return Err(ArtifactError::TimeOutOfRange),
    };
    let filename = artifact_file_name(project_name, stamp.as_str());
    if !check_stays_inside(filename.as_str()) {
        return Err(ArtifactError::NameLeavesDirectory);
    }
    let out_path = artifact_paths(data_root, project_id, filename.as_str());
    proof {
        reveal_strlit(".zip");
        assert(filename@.len() > 0);
    }
    Ok(ArtifactPlan { filename, out_path })
}

/// The name under which a file of the build output goes into the zip: its
/// path relative to the output directory with `\` turned into `/`; `None`
/// for an empty path, which is skipped.
pub fn zip_entry_name(rel_path: &str) -> (res: Option<String>)
    ensures
        rel_path@.len() == 0 <==> res is None,
        res matches Some(n) ==> n@ == replaced(rel_path@, '\\', '/'),
{
    let name = replace_char(rel_path, '\\', '/');
    if name.as_str().is_empty() {
        None
    } else {
        Some(name)
    }
}

/// The text with which packaging is refused when the dist path leaves the
/// repository.
pub fn dist_outside_message(dist_path: &str) -> (res: String)
    ensures
        res@ == "Dist path must stay inside the repository: "@ + dist_path@,
{
    concat2("Dist path must stay inside the repository: ", dist_path)
}

/// The text with which packaging is refused when the build output is not a
/// directory.
pub fn dist_missing_message(dist: &str) -> (res: String)
    ensures
        res@ == "Dist directory does not exist: "@ + dist@,
{
    concat2("Dist directory does not exist: ", dist)
}

} // verus!
