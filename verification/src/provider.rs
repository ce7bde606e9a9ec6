//! From a provider's document to readings.
//!
//! A document is mapped field by field. A numeric field that is absent, or is
//! not a number of the wanted kind, never fails the mapping: its declared
//! stand-in is taken instead (`MISSING_PHYSICAL` for temperatures and
//! humidities, `MISSING_CODE` for condition codes, `MISSING_TIMESTAMP` for
//! timestamps). Only the envelope can fail it: the `hourly` and `daily` arrays
//! of a combined document, and the top-level timestamp of a current-conditions
//! document, which is the one field without a stand-in.

use crate::document::{or_null, views, Doc, DocView};
use crate::reading::{
    DailyForecast, Forecast, SnapshotView, WeatherSnapshot, MISSING_CODE, MISSING_PHYSICAL,
    MISSING_TIMESTAMP,
};
use vstd::prelude::*;
use vstd::string::StringExecFns;

verus! {

/// The two fetches: the cheap one for the current conditions alone, and the
/// combined one for the current conditions with both forecasts.
#[derive(Clone, Copy, Debug, PartialEq, Eq, Structural)]
pub enum FetchKind {
    Current,
    Full,
}

/// The address of the current-conditions document for the fixed place, in
/// metric units, with `api_key` as the caller's credential.
pub open spec fn current_url(api_key: Seq<char>) -> Seq<char> {
    "http://api.openweathermap.org/data/2.5/weather?lat=40.2338&lon=-111.6585&appid="@ + api_key
        + "&units=metric"@
}

/// The address of the combined document for the fixed place, in metric units
/// and without the parts that are never read.
pub open spec fn full_url(api_key: Seq<char>) -> Seq<char> {
    "http://api.openweathermap.org/data/2.5/onecall?lat=40.2338&lon=-111.6585&appid="@ + api_key
        + "&units=metric&exclude=minutely,alerts"@
}

/// The address to ask for a fetch of the given kind.
pub open spec fn url_of(kind: FetchKind, api_key: Seq<char>) -> Seq<char> {
    match kind {
        FetchKind::Current => current_url(api_key),
        FetchKind::Full => full_url(api_key),
    }
}

/// Builds the address to ask for a fetch of the given kind.
pub fn request_url(kind: FetchKind, api_key: &str) -> (url: String)
    ensures
        url@ == url_of(kind, api_key@),
{
    match kind {
        FetchKind::Current => {
            let mut url = String::from_str(
                "http://api.openweathermap.org/data/2.5/weather?lat=40.2338&lon=-111.6585&appid=",
            );
            url.append(api_key);
            url.append("&units=metric");
            url
        },
        FetchKind::Full => {
            let mut url = String::from_str(
                "http://api.openweathermap.org/data/2.5/onecall?lat=40.2338&lon=-111.6585&appid=",
            );
            url.append(api_key);
            url.append("&units=metric&exclude=minutely,alerts");
            url
        },
    }
}

/// Why a fetch gave no readings.
#[derive(Clone, Copy, Debug, PartialEq, Eq, Structural)]
pub enum FetchError {
    /// The call to the provider failed.
    Transport,
    /// The response body is no structured document.
    Unparsable,
    /// A current-conditions document has no unsigned integer `dt`.
    MissingTimestamp,
    /// A combined document has no array `hourly`.
    MissingHourly,
    /// A combined document has no array `daily`.
    MissingDaily,
}

/// The timestamp that `v` is, or its stand-in.
pub open spec fn timestamp_of(v: DocView) -> u64 {
    match v.as_unsigned() {
        Some(n) => n,
        None => MISSING_TIMESTAMP,
    }
}

/// The temperature or humidity that `v` is, or its stand-in.
pub open spec fn physical_of(v: DocView) -> u32 {
    match v.as_single() {
        Some(bits) => bits,
        None => MISSING_PHYSICAL,
    }
}

/// The condition code that `v` is, cut to its low 16 bits, or its stand-in.
pub open spec fn code_of(v: DocView) -> u16 {
    match v.as_unsigned() {
        Some(n) => (n % 0x1_0000) as u16,
        None => MISSING_CODE,
    }
}

/// The condition code of a reading: `weather[0].id`.
pub open spec fn condition_of(v: DocView) -> u16 {
    code_of(v.field("weather"@).element(0).field("id"@))
}

/// The reading that a member of a combined document gives (`current`, or one
/// element of `hourly`): `dt`, `temp`, `humidity`, `weather[0].id`.
pub open spec fn point_of(v: DocView) -> Forecast {
    Forecast {
        timestamp: timestamp_of(v.field("dt"@)),
        temperature: physical_of(v.field("temp"@)),
        humidity: physical_of(v.field("humidity"@)),
        condition_code: condition_of(v),
    }
}

/// The reading that one element of `daily` gives: `dt`, `temp.day`,
/// `temp.min`, `temp.max`, `humidity`, `weather[0].id`.
pub open spec fn daily_of(v: DocView) -> DailyForecast {
    DailyForecast {
        timestamp: timestamp_of(v.field("dt"@)),
        temperature: physical_of(v.field("temp"@).field("day"@)),
        temp_min: physical_of(v.field("temp"@).field("min"@)),
        temp_max: physical_of(v.field("temp"@).field("max"@)),
        humidity: physical_of(v.field("humidity"@)),
        condition_code: condition_of(v),
    }
}

/// The readings of a run of `hourly` elements, one for one.
pub open spec fn points_of(items: Seq<DocView>) -> Seq<Forecast> {
    Seq::new(items.len(), |i: int| point_of(items[i]))
}

/// The readings of a run of `daily` elements, one for one.
pub open spec fn dailies_of(items: Seq<DocView>) -> Seq<DailyForecast> {
    Seq::new(items.len(), |i: int| daily_of(items[i]))
}

/// What a current-conditions document gives: `dt`, `main.temp`,
/// `main.humidity`, `weather[0].id`. The timestamp has no stand-in: without
/// it the document is refused.
pub open spec fn current_reading(v: DocView) -> Result<Forecast, FetchError> {
    match v.field("dt"@).as_unsigned() {
        Some(timestamp) => Ok(
            Forecast {
                timestamp,
                temperature: physical_of(v.field("main"@).field("temp"@)),
                humidity: physical_of(v.field("main"@).field("humidity"@)),
                condition_code: condition_of(v),
            },
        ),
        None => Err(FetchError::MissingTimestamp),
    }
}

/// What a combined document gives: the reading under `current`, one reading
/// for each element of `hourly` and one for each element of `daily`, in the
/// document's order. Without either array the document is refused.
pub open spec fn full_reading(v: DocView) -> Result<SnapshotView, FetchError> {
    match v.field("hourly"@).items() {
        None => Err(FetchError::MissingHourly),
        Some(hours) => match v.field("daily"@).items() {
            None => Err(FetchError::MissingDaily),
            Some(days) => Ok(
                SnapshotView {
                    current: point_of(v.field("current"@)),
                    hourly: points_of(hours),
                    daily: dailies_of(days),
                },
            ),
        },
    }
}

/// The model of what `parse_full` returns.
pub open spec fn full_view(r: Result<WeatherSnapshot, FetchError>) -> Result<
    SnapshotView,
    FetchError,
> {
    match r {
        Ok(snapshot) => Ok(snapshot@),
        Err(e) => Err(e),
    }
}

/// A current-conditions document is mapped whenever it carries its timestamp,
/// whichever of its other fields are absent or malformed.
pub proof fn lemma_current_reading_total(v: DocView)
    ensures
        current_reading(v).is_ok() <==> v.field("dt"@).as_unsigned().is_some(),
        current_reading(v) matches Err(e) ==> e == FetchError::MissingTimestamp,
{
}

/// A combined document is mapped whenever it carries its two arrays, whichever
/// fields of `current` or of any element are absent or malformed; and the
/// mapping gives one reading for each element.
pub proof fn lemma_full_reading_total(v: DocView)
    ensures
        full_reading(v).is_ok() <==> v.field("hourly"@).items().is_some() && v.field(
            "daily"@,
        ).items().is_some(),
        full_reading(v) matches Ok(s) ==> s.hourly.len() == v.field("hourly"@).items().unwrap().len()
            && s.daily.len() == v.field("daily"@).items().unwrap().len(),
        full_reading(v) matches Err(e) ==> e == FetchError::MissingHourly || e
            == FetchError::MissingDaily,
{
}

fn step<'a>(from: Option<&'a Doc>, name: &str) -> (to: Option<&'a Doc>)
    ensures
        or_null(to) == or_null(from).field(name@),
{
    match from {
        Some(doc) => doc.get(name),
        None => None,
    }
}

fn element<'a>(from: Option<&'a Doc>, index: usize) -> (to: Option<&'a Doc>)
    ensures
        or_null(to) == or_null(from).element(index as int),
{
    match from {
        Some(doc) => doc.at(index),
        None => None,
    }
}

fn unsigned(at: Option<&Doc>) -> (n: Option<u64>)
    ensures
        n == or_null(at).as_unsigned(),
{
    match at {
        Some(doc) => doc.as_u64(),
        None => None,
    }
}

fn read_timestamp(at: Option<&Doc>) -> (t: u64)
    ensures
        t == timestamp_of(or_null(at)),
{
    match unsigned(at) {
        Some(n) => n,
        None => MISSING_TIMESTAMP,
    }
}

fn read_physical(at: Option<&Doc>) -> (bits: u32)
    ensures
        bits == physical_of(or_null(at)),
{
    match at {
        Some(doc) => match doc.as_single() {
            Some(bits) => bits,
            None => MISSING_PHYSICAL,
        },
        None => MISSING_PHYSICAL,
    }
}

fn read_code(at: Option<&Doc>) -> (code: u16)
    ensures
        code == code_of(or_null(at)),
{
    match unsigned(at) {
        Some(n) => (n % 0x1_0000) as u16,
        None => MISSING_CODE,
    }
}

fn read_condition(at: Option<&Doc>) -> (code: u16)
    ensures
        code == condition_of(or_null(at)),
{
    read_code(step(element(step(at, "weather"), 0), "id"))
}

fn read_point(at: Option<&Doc>) -> (f: Forecast)
    ensures
        f == point_of(or_null(at)),
{
    Forecast {
        timestamp: read_timestamp(step(at, "dt")),
        temperature: read_physical(step(at, "temp")),
        humidity: read_physical(step(at, "humidity")),
        condition_code: read_condition(at),
    }
}

fn read_daily(at: Option<&Doc>) -> (d: DailyForecast)
    ensures
        d == daily_of(or_null(at)),
{
    let temp = step(at, "temp");
    DailyForecast {
        timestamp: read_timestamp(step(at, "dt")),
        temperature: read_physical(step(temp, "day")),
        temp_min: read_physical(step(temp, "min")),
        temp_max: read_physical(step(temp, "max")),
        humidity: read_physical(step(at, "humidity")),
        condition_code: read_condition(at),
    }
}

fn read_points(items: &Vec<Doc>) -> (out: Vec<Forecast>)
    ensures
        out@ == points_of(views(items@)),
{
    let mut out: Vec<Forecast> = Vec::new();
    let mut i: usize = 0;
    while i < items.len()
        invariant
            i <= items.len(),
            out@.len() == i,
            forall|j: int| 0 <= j < i ==> out@[j] == point_of(#[trigger] items@[j]@),
        decreases items.len() - i,
    {
        out.push(read_point(Some(&items[i])));
        i += 1;
    }
    assert(out@ =~= points_of(views(items@)));
    out
}

fn read_dailies(items: &Vec<Doc>) -> (out: Vec<DailyForecast>)
    ensures
        out@ == dailies_of(views(items@)),
{
    let mut out: Vec<DailyForecast> = Vec::new();
    let mut i: usize = 0;
    while i < items.len()
        invariant
            i <= items.len(),
            out@.len() == i,
            forall|j: int| 0 <= j < i ==> out@[j] == daily_of(#[trigger] items@[j]@),
        decreases items.len() - i,
    {
        out.push(read_daily(Some(&items[i])));
        i += 1;
    }
    assert(out@ =~= dailies_of(views(items@)));
    out
}

/// Maps a current-conditions document to the reading it gives (see
/// `current_reading`).
pub fn parse_current(doc: &Doc) -> (r: Result<Forecast, FetchError>)
    ensures
        r == current_reading(doc@),
{
    let at = Some(doc);
    match unsigned(step(at, "dt")) {
        Some(timestamp) => {
            let main = step(at, "main");
            Ok(
                Forecast {
                    timestamp,
                    temperature: read_physical(step(main, "temp")),
                    humidity: read_physical(step(main, "humidity")),
                    condition_code: read_condition(at),
                },
            )
        },
        None => Err(FetchError::MissingTimestamp),
    }
}

/// Maps a combined document to the snapshot it gives (see `full_reading`).
pub fn parse_full(doc: &Doc) -> (r: Result<WeatherSnapshot, FetchError>)
    ensures
        full_view(r) == full_reading(doc@),
{
    let at = Some(doc);
    let hours = match doc.get("hourly") {
        Some(node) => node.as_array(),
        None => None,
    };
    let days = match doc.get("daily") {
        Some(node) => node.as_array(),
        None => None,
    };
    match hours {
        None => Err(FetchError::MissingHourly),
        Some(hours) => match days {
            None => Err(FetchError::MissingDaily),
            Some(days) => Ok(
                WeatherSnapshot {
                    current: read_point(step(at, "current")),
                    hourly: read_points(hours),
                    daily: read_dailies(days),
                },
            ),
        },
    }
}

} // verus!
