//! Date-time values of the `time` crate: parsing Questrade's ISO 8601
//! strings and formatting query parameters.

use vstd::prelude::*;
use vstd::string::StringExecFns;
use time::{Date, OffsetDateTime};
use crate::error::QuestradeError;
use crate::order::{is_stable_order, lemma_stable_order_by_value, stable_order, text_lt};
use crate::text::digit_char;
use crate::timestamp::{in_datetime_range, Timestamp};

verus! {

#[verifier::external_type_specification]
#[verifier::external_body]
pub struct ExOffsetDateTime(time::OffsetDateTime);

#[verifier::external_type_specification]
#[verifier::external_body]
pub struct ExDate(time::Date);

/// The instant a date-time stands for, in nanoseconds since the Unix epoch
/// (what `OffsetDateTime::unix_timestamp_nanos` gives).
pub uninterp spec fn unix_nanos_of(dt: OffsetDateTime) -> int;

/// The UTC offset of a date-time in seconds (what
/// `OffsetDateTime::offset().whole_seconds()` gives).
pub uninterp spec fn offset_seconds_of(dt: OffsetDateTime) -> int;

/// The Julian day number of a date (what `Date::to_julian_day` gives).
pub uninterp spec fn julian_day_of(d: Date) -> int;

/// What ISO 8601 parsing in `time`'s default configuration reads from `s`:
/// the instant, in nanoseconds since the Unix epoch, and the UTC offset in
/// seconds written in the text; `None` where it rejects `s`.
pub uninterp spec fn iso8601_parse(s: Seq<char>) -> Option<(int, int)>;

/// `s` is a date-time that ISO 8601 parsing accepts.
pub open spec fn iso8601_accepts(s: Seq<char>) -> bool {
    iso8601_parse(s) is Some
}

/// The instant that `s` parses to, if it parses.
pub open spec fn iso8601_instant(s: Seq<char>) -> Option<int> {
    match iso8601_parse(s) {
        Some(p) => Some(p.0),
        None => None,
    }
}

/// Nanoseconds in one day.
pub open spec fn nanos_per_day() -> int {
    86_400_000_000_000
}

/// Julian day number of 1970-01-01.
pub open spec fn unix_epoch_julian_day() -> int {
    2_440_588
}

/// Whole days from the epoch to the instant `n` seen at an offset of
/// `offset` seconds (rounded down).
pub open spec fn local_day(n: int, offset: int) -> int {
    (n + offset * 1_000_000_000) / nanos_per_day()
}

/// The local day of a parse result (instant, offset).
pub open spec fn parsed_local_day(p: (int, int)) -> int {
    local_day(p.0, p.1)
}

/// The proleptic Gregorian `(year, month, day)` of the day `z` days after
/// 1970-01-01 (negative before it).
pub open spec fn civil_from_days(z: int) -> (int, int, int) {
    let z2 = z + 719_468;
    let era = z2 / 146_097;
    let doe = z2 - era * 146_097;
    let yoe = (doe - doe / 1_460 + doe / 36_524 - doe / 146_096) / 365;
    let doy = doe - (365 * yoe + yoe / 4 - yoe / 100);
    let mp = (5 * doy + 2) / 153;
    let d = doy - (153 * mp + 2) / 5 + 1;
    let m = if mp < 10 {
        mp + 3
    } else {
        mp - 9
    };
    (yoe + era * 400 + (if m <= 2 {
        1int
    } else {
        0int
    }), m, d)
}

/// The calendar fields `(year, month, day, hour, minute, second)` of the
/// instant `n` (nanoseconds since the epoch) seen at a UTC offset of
/// `offset` seconds.
pub open spec fn local_fields(n: int, offset: int) -> (int, int, int, int, int, int) {
    let secs = (n + offset * 1_000_000_000) / 1_000_000_000int;
    let (y, m, d) = civil_from_days(secs / 86_400);
    let sod = secs % 86_400;
    (y, m, d, sod / 3_600, (sod % 3_600) / 60, sod % 60)
}

/// The calendar fields of a date-time in its own offset.
pub open spec fn local_fields_of(dt: OffsetDateTime) -> (int, int, int, int, int, int) {
    local_fields(unix_nanos_of(dt), offset_seconds_of(dt))
}

/// Two ASCII digits of `n`, which is below 100.
pub open spec fn two_digits(n: int) -> Seq<char> {
    seq![digit_char(n / 10), digit_char(n % 10)]
}

/// Four ASCII digits of `n`, which is below 10000.
pub open spec fn four_digits(n: int) -> Seq<char> {
    seq![digit_char(n / 1000), digit_char((n / 100) % 10), digit_char((n / 10) % 10), digit_char(n % 10)]
}

/// A year as `[year]` writes it: four digits, with `-` before a negative one.
pub open spec fn year_text(y: int) -> Seq<char> {
    if y < 0 {
        seq!['-'] + four_digits(-y)
    } else {
        four_digits(y)
    }
}

/// The query-parameter text of the instant `n`: the UTC date-time to the
/// second, `YYYY-MM-DDTHH:MM:SSZ`.
pub open spec fn utc_query_text(n: int) -> Seq<char> {
    let (y, mo, d, h, mi, se) = local_fields(n, 0);
    year_text(y) + seq!['-'] + two_digits(mo) + seq!['-'] + two_digits(d) + seq!['T'] + two_digits(
        h,
    ) + seq![':'] + two_digits(mi) + seq![':'] + two_digits(se) + seq!['Z']
}

/// `OffsetDateTime::unix_timestamp_nanos`.
#[verifier::external_body]
fn unix_timestamp_nanos(dt: &OffsetDateTime) -> (n: i128)
    ensures
        n == unix_nanos_of(*dt),
{
    dt.unix_timestamp_nanos()
}

/// `OffsetDateTime::from_unix_timestamp_nanos`: the UTC date-time at `n`
/// nanoseconds after the epoch. By the source, it fails exactly when the
/// instant lies outside the range that date-times can hold; the error is
/// converted to `time::error::Error`.
#[verifier::external_body]
fn from_unix_timestamp_nanos(n: i128) -> (res: Result<OffsetDateTime, time::error::Error>)
    ensures
        res is Ok <==> in_datetime_range(n as int),
        res matches Ok(dt) ==> unix_nanos_of(dt) == n && offset_seconds_of(dt) == 0,
{
    OffsetDateTime::from_unix_timestamp_nanos(n).map_err(time::error::Error::from)
}

/// `OffsetDateTime::parse` with `Iso8601::DEFAULT`; its error is converted to
/// `time::error::Error`. What is read from the text (instant and offset)
/// is named.
#[verifier::external_body]
fn parse_iso8601(s: &str) -> (res: Result<OffsetDateTime, time::error::Error>)
    ensures
        res is Ok <==> iso8601_parse(s@) is Some,
        res matches Ok(dt) ==> iso8601_parse(s@) == Some((unix_nanos_of(dt), offset_seconds_of(dt))),
{
    OffsetDateTime::parse(s, &time::format_description::well_known::Iso8601::DEFAULT).map_err(
        time::error::Error::from,
    )
}

/// `OffsetDateTime::date`: the calendar date in the date-time's own
/// offset, whose Julian day is that of the epoch plus the whole days from
/// the epoch to the local date-time.
#[verifier::external_body]
fn date_of(dt: &OffsetDateTime) -> (d: Date)
    ensures
        julian_day_of(d) == unix_epoch_julian_day() + local_day(unix_nanos_of(*dt), offset_seconds_of(*dt)),
{
    dt.date()
}

/// The description of query-parameter date-times: UTC to the second.
pub open spec fn query_description() -> Seq<char> {
    "[year]-[month]-[day]T[hour]:[minute]:[second]Z"@
}

/// `OffsetDateTime::format` with the items that
/// `time::format_description::parse` makes of `description` (either error
/// converted to `time::error::Error`). For the query description and a UTC
/// date-time, neither step fails (a date-time's year lies within -9999 to
/// 9999) and the text is the date and time to the second. Nothing is
/// claimed for other descriptions or offsets.
#[verifier::external_body]
fn format_described(dt: &OffsetDateTime, description: &str) -> (res: Result<String, time::error::Error>)
    ensures
        res is Err ==> !(description@ == query_description() && offset_seconds_of(*dt) == 0),
        res matches Ok(text) ==> (description@ == query_description() && offset_seconds_of(*dt) == 0 ==> text@ == utc_query_text(unix_nanos_of(*dt))),
{
    let items = time::format_description::parse(description).map_err(time::error::Error::from)?;
    dt.format(&items).map_err(time::error::Error::from)
}

/// The instant that `dt` stands for.
pub fn timestamp_of(dt: &OffsetDateTime) -> (t: Timestamp)
    ensures
        t.unix_nanos == unix_nanos_of(*dt),
{
    Timestamp::from_unix_nanos(unix_timestamp_nanos(dt))
}

/// The UTC date-time at `t`; `None` outside the range date-times can hold.
pub fn datetime_of(t: Timestamp) -> (res: Option<OffsetDateTime>)
    ensures
        res is Some <==> in_datetime_range(t.unix_nanos as int),
        res matches Some(dt) ==> unix_nanos_of(dt) == t.unix_nanos,
{
    match from_unix_timestamp_nanos(t.unix_nanos) {
        Ok(dt) => Some(dt),
        Err(_) => None,
    }
}

/// The context given for a string that does not parse as a date-time.
pub open spec fn parse_failure_context(s: Seq<char>) -> Seq<char> {
    "Failed to parse datetime: "@ + s
}

/// Parse a Questrade datetime string to `OffsetDateTime`.
///
/// Questrade returns datetimes like `"2014-10-24T20:06:40.131000-04:00"`.
pub fn parse_datetime(s: &str) -> (res: Result<OffsetDateTime, QuestradeError>)
    ensures
        res is Ok <==> iso8601_accepts(s@),
        res matches Ok(dt) ==> iso8601_parse(s@) == Some((unix_nanos_of(dt), offset_seconds_of(dt))),
        res matches Err(e) ==> e matches QuestradeError::DateTime { context, .. } && context@ == parse_failure_context(s@),
{
    match parse_iso8601(s) {
        Ok(dt) => Ok(dt),
        Err(e) => {
            let mut context = "Failed to parse datetime: ".to_owned();
            context.append(s);
            Err(QuestradeError::DateTime { context, source: e })
        },
    }
}

/// Parse a Questrade datetime to just a `time::Date` (for option expiry).
pub fn parse_date(s: &str) -> (res: Result<Date, QuestradeError>)
    ensures
        res is Ok <==> iso8601_accepts(s@),
        res matches Ok(d) ==> julian_day_of(d) == unix_epoch_julian_day() + parsed_local_day(
            iso8601_parse(s@)->0,
        ),
        res matches Err(e) ==> e matches QuestradeError::DateTime { context, .. } && context@ == parse_failure_context(s@),
{
    let dt = parse_datetime(s)?;
    Ok(date_of(&dt))
}

/// Format an instant for Questrade query parameters using second precision
/// in UTC, e.g. `2026-02-24T08:58:12Z`.
///
/// Some endpoints reject long fractional-second timestamps with
/// `{"code":1003,"message":"Argument length exceeds imposed limit"}`.
pub fn format_query_datetime(t: Timestamp) -> (res: Result<String, QuestradeError>)
    ensures
        in_datetime_range(t.unix_nanos as int) ==> (res matches Ok(text) && text@ == utc_query_text(
            t.unix_nanos as int,
        )),
        !in_datetime_range(t.unix_nanos as int) ==> (res matches Err(e) && e matches QuestradeError::DateTime { context, .. }
            && context@ == "Timestamp out of range for a date-time"@),
{
    let utc = match from_unix_timestamp_nanos(t.unix_nanos) {
        Ok(dt) => dt,
        Err(e) => {
            return Err(
                QuestradeError::DateTime {
                    context: "Timestamp out of range for a date-time".to_owned(),
                    source: e,
                },
            );
        },
    };
    proof {
        reveal_strlit("[year]-[month]-[day]T[hour]:[minute]:[second]Z");
    }
    match format_described(&utc, "[year]-[month]-[day]T[hour]:[minute]:[second]Z") {
        Ok(text) => Ok(text),
        Err(e) => Err(
            QuestradeError::DateTime {
                context: "Failed to format datetime for query parameter".to_owned(),
                source: e,
            },
        ),
    }
}

/// The sort key of a time stamp: the instant it parses to, or `None`.
pub open spec fn instant_key(s: Seq<char>) -> Option<i128> {
    match iso8601_instant(s) {
        Some(n) => Some(n as i128),
        None => None,
    }
}

/// The instant that `s` parses to, if it parses, fits in 128 bits, as every
/// instant a date-time holds does.
pub open spec fn instant_fits(s: Seq<char>) -> bool {
    iso8601_parse(s) matches Some(p) ==> i128::MIN <= p.0 <= i128::MAX
}

/// The sort keys of a list of time stamps.
pub open spec fn instant_keys(stamps: Seq<String>) -> Seq<Option<i128>> {
    stamps.map_values(|s: String| instant_key(s@))
}

/// The chronological order of records by their time stamps: indices into
/// `stamps`, earliest instant first (whatever the UTC offsets the stamps are
/// written in), records at the same instant by the text of their stamps,
/// records whose stamps are equal in the order they came in, and records
/// whose stamp does not parse after all others (among themselves by text).
pub fn chronological_order(stamps: &Vec<String>) -> (order: Vec<usize>)
    ensures
        is_stable_order(instant_keys(stamps@), stamps@.map_values(|t: String| t@), order@),
        forall|i: int| 0 <= i < stamps.len() ==> instant_fits(#[trigger] stamps@[i]@),
{
    let mut keys: Vec<Option<i128>> = Vec::new();
    let mut i: usize = 0;
    while i < stamps.len()
        invariant
            i <= stamps.len(),
            keys@ == instant_keys(stamps@).take(i as int),
            forall|j: int| 0 <= j < i ==> instant_fits(#[trigger] stamps@[j]@),
        decreases stamps.len() - i,
    {
        let key = match parse_datetime(stamps[i].as_str()) {
            Ok(dt) => Some(timestamp_of(&dt).unix_nanos),
            Err(_) => None,
        };
        assert(key == instant_key(stamps@[i as int]@));
        assert(instant_fits(stamps@[i as int]@));
        keys.push(key);
        i = i + 1;
        assert(keys@ =~= instant_keys(stamps@).take(i as int));
    }
    assert(instant_keys(stamps@).take(stamps.len() as int) =~= instant_keys(stamps@));
    stable_order(&keys, stamps)
}

/// For years 0 to 9999 the query text has the fixed form
/// `YYYY-MM-DDTHH:MM:SSZ`: 20 characters with the separators in place.
pub proof fn lemma_query_text_form(n: int)
    requires
        local_fields(n, 0).0 >= 0,
    ensures
        utc_query_text(n).len() == 20,
        utc_query_text(n)[4] == '-' && utc_query_text(n)[7] == '-',
        utc_query_text(n)[10] == 'T',
        utc_query_text(n)[13] == ':' && utc_query_text(n)[16] == ':',
        utc_query_text(n)[19] == 'Z',
{
}

/// Equal instants give equal query text, whatever offset they were written in.
pub proof fn lemma_query_text_depends_on_instant(a: OffsetDateTime, b: OffsetDateTime)
    requires
        unix_nanos_of(a) == unix_nanos_of(b),
    ensures
        utc_query_text(unix_nanos_of(a)) == utc_query_text(unix_nanos_of(b)),
{
}

/// In chronological order a record whose stamp is an earlier instant comes
/// before one whose stamp is a later instant, whatever offsets they are
/// written in; records whose stamps do not parse come after all that do;
/// and stamps at the same instant come in the order of their text.
pub proof fn lemma_chronological_earlier_first(stamps: Seq<String>, order: Seq<usize>, a: int, b: int)
    requires
        is_stable_order(instant_keys(stamps), stamps.map_values(|t: String| t@), order),
        forall|i: int| 0 <= i < stamps.len() ==> instant_fits(#[trigger] stamps[i]@),
        0 <= a < b < order.len(),
    ensures
        iso8601_parse(stamps[order[a] as int]@) is Some && iso8601_parse(stamps[order[b] as int]@) is Some
            ==> (iso8601_parse(stamps[order[a] as int]@)->0).0 <= (iso8601_parse(stamps[order[b] as int]@)->0).0,
        iso8601_parse(stamps[order[a] as int]@) is None ==> iso8601_parse(stamps[order[b] as int]@) is None,
        iso8601_parse(stamps[order[a] as int]@) is Some && iso8601_parse(stamps[order[b] as int]@) is Some
            && (iso8601_parse(stamps[order[a] as int]@)->0).0 == (iso8601_parse(stamps[order[b] as int]@)->0).0
            ==> !text_lt(stamps[order[b] as int]@, stamps[order[a] as int]@),
{
    let keys = instant_keys(stamps);
    let texts = stamps.map_values(|t: String| t@);
    let i = order[a] as int;
    let j = order[b] as int;
    assert(order[a] < keys.len() && order[b] < keys.len());
    assert(keys[i] == instant_key(stamps[i]@));
    assert(keys[j] == instant_key(stamps[j]@));
    assert(texts[i] == stamps[i]@);
    assert(texts[j] == stamps[j]@);
    assert(instant_fits(stamps[i]@));
    assert(instant_fits(stamps[j]@));
    lemma_stable_order_by_value(keys, texts, order, a, b);
}

} // verus!
