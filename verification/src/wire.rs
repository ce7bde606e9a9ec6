//! The wire format: a snapshot as a run of fixed-size little-endian blocks.
//!
//! First the block of the current conditions, then one block for each of the
//! upcoming hours, then one block for each day. Nothing is counted or
//! delimited: a point block has `POINT_BLOCK_LEN` bytes, a daily block
//! `DAILY_BLOCK_LEN`, and there are at most `MAX_UPCOMING` hourly blocks.
//! Timestamps are not sent.

use crate::reading::{DailyForecast, Forecast, SnapshotView, WeatherSnapshot};
use byteorder::{LittleEndian, WriteBytesExt};
use vstd::prelude::*;

verus! {

/// Bytes in the block of a point reading.
pub const POINT_BLOCK_LEN: usize = 10;

/// Bytes in the block of a daily reading.
pub const DAILY_BLOCK_LEN: usize = 18;

/// The most hourly blocks that are sent.
pub const MAX_UPCOMING: usize = 4;

/// The two bytes of `x`, low byte first.
pub open spec fn le_u16(x: u16) -> Seq<u8> {
    seq![(x % 256) as u8, (x / 256) as u8]
}

/// The four bytes of `x`, lowest byte first.
pub open spec fn le_u32(x: u32) -> Seq<u8> {
    seq![
        (x % 256) as u8,
        (x / 0x100 % 256) as u8,
        (x / 0x1_0000 % 256) as u8,
        (x / 0x100_0000) as u8,
    ]
}

/// The block of a point reading: temperature, humidity, condition code.
pub open spec fn point_block(f: Forecast) -> Seq<u8> {
    le_u32(f.temperature) + le_u32(f.humidity) + le_u16(f.condition_code)
}

/// The block of a daily reading: mean temperature, humidity, lowest and
/// highest temperature, condition code.
pub open spec fn daily_block(d: DailyForecast) -> Seq<u8> {
    le_u32(d.temperature) + le_u32(d.humidity) + le_u32(d.temp_min) + le_u32(d.temp_max) + le_u16(
        d.condition_code,
    )
}

/// The blocks of a run of point readings, one after the other.
pub open spec fn point_blocks(s: Seq<Forecast>) -> Seq<u8> {
    s.map_values(|f: Forecast| point_block(f)).flatten()
}

/// The blocks of a run of daily readings, one after the other.
pub open spec fn daily_blocks(s: Seq<DailyForecast>) -> Seq<u8> {
    s.map_values(|d: DailyForecast| daily_block(d)).flatten()
}

/// Whether a reading is not yet past at `now`.
pub open spec fn due_at(now: u64) -> spec_fn(Forecast) -> bool {
    |h: Forecast| h.timestamp >= now
}

/// The upcoming hours: the readings of `hourly` that are not yet past at
/// `now`, in their order, and of those the first `MAX_UPCOMING`.
pub open spec fn upcoming(hourly: Seq<Forecast>, now: u64) -> Seq<Forecast> {
    let due = hourly.filter(due_at(now));
    if due.len() <= MAX_UPCOMING {
        due
    } else {
        due.take(MAX_UPCOMING as int)
    }
}

/// The bytes that stand for a snapshot at the time `now`.
pub open spec fn encoding(s: SnapshotView, now: u64) -> Seq<u8> {
    point_block(s.current) + point_blocks(upcoming(s.hourly, now)) + daily_blocks(s.daily)
}

/// byteorder's `WriteBytesExt::write_u32::<LittleEndian>` on a `Vec<u8>`.
/// It lays the number out with `to_le_bytes` and hands the four bytes to the
/// vector's `write_all`, which appends them and cannot fail.
#[verifier::external_body]
fn put_u32(out: &mut Vec<u8>, value: u32)
    ensures
        final(out)@ == old(out)@ + le_u32(value),
{
    let _ = out.write_u32::<LittleEndian>(value);
}

/// byteorder's `WriteBytesExt::write_u16::<LittleEndian>` on a `Vec<u8>`.
/// It lays the number out with `to_le_bytes` and hands the two bytes to the
/// vector's `write_all`, which appends them and cannot fail.
#[verifier::external_body]
fn put_u16(out: &mut Vec<u8>, value: u16)
    ensures
        final(out)@ == old(out)@ + le_u16(value),
{
    let _ = out.write_u16::<LittleEndian>(value);
}

/// A run of point blocks grows by the block of the reading that is added.
pub proof fn lemma_point_blocks_push(s: Seq<Forecast>, f: Forecast)
    ensures
        point_blocks(s.push(f)) == point_blocks(s) + point_block(f),
        point_blocks(s.push(f)).len() == point_blocks(s).len() + POINT_BLOCK_LEN,
{
    let block = |f: Forecast| point_block(f);
    assert(s.push(f).map_values(block) =~= s.map_values(block).push(point_block(f)));
    s.map_values(block).lemma_flatten_push(point_block(f));
}

/// A run of daily blocks grows by the block of the reading that is added.
pub proof fn lemma_daily_blocks_push(s: Seq<DailyForecast>, d: DailyForecast)
    ensures
        daily_blocks(s.push(d)) == daily_blocks(s) + daily_block(d),
        daily_blocks(s.push(d)).len() == daily_blocks(s).len() + DAILY_BLOCK_LEN,
{
    let block = |d: DailyForecast| daily_block(d);
    assert(s.push(d).map_values(block) =~= s.map_values(block).push(daily_block(d)));
    s.map_values(block).lemma_flatten_push(daily_block(d));
}

/// A run of point blocks has `POINT_BLOCK_LEN` bytes for each reading.
pub proof fn lemma_point_blocks_len(s: Seq<Forecast>)
    ensures
        point_blocks(s).len() == POINT_BLOCK_LEN * s.len(),
    decreases s.len(),
{
    if s.len() > 0 {
        lemma_point_blocks_len(s.drop_last());
        lemma_point_blocks_push(s.drop_last(), s.last());
        assert(s.drop_last().push(s.last()) =~= s);
    }
}

/// A run of daily blocks has `DAILY_BLOCK_LEN` bytes for each reading.
pub proof fn lemma_daily_blocks_len(s: Seq<DailyForecast>)
    ensures
        daily_blocks(s).len() == DAILY_BLOCK_LEN * s.len(),
    decreases s.len(),
{
    if s.len() > 0 {
        lemma_daily_blocks_len(s.drop_last());
        lemma_daily_blocks_push(s.drop_last(), s.last());
        assert(s.drop_last().push(s.last()) =~= s);
    }
}

/// The upcoming hours are at most `MAX_UPCOMING`, and each is a reading of
/// `hourly` that is not yet past.
pub proof fn lemma_upcoming_bounds(hourly: Seq<Forecast>, now: u64)
    ensures
        upcoming(hourly, now).len() <= MAX_UPCOMING,
        upcoming(hourly, now).len() <= hourly.len(),
        forall|i: int|
            0 <= i < upcoming(hourly, now).len() ==> (#[trigger] upcoming(hourly, now)[i]).timestamp
                >= now && hourly.contains(upcoming(hourly, now)[i]),
{
    let due = hourly.filter(due_at(now));
    hourly.lemma_filter_len(due_at(now));
    assert forall|i: int| 0 <= i < upcoming(hourly, now).len() implies (#[trigger] upcoming(
        hourly,
        now,
    )[i]).timestamp >= now && hourly.contains(upcoming(hourly, now)[i]) by {
        assert(upcoming(hourly, now)[i] == due[i]);
        assert(due.contains(due[i]));
        hourly.lemma_filter_contains_rev(due_at(now), due[i]);
        hourly.lemma_filter_pred(due_at(now), i);
    }
}

/// Whether the readings stand in the order of their timestamps.
pub open spec fn chronological(hourly: Seq<Forecast>) -> bool {
    forall|i: int, j: int|
        0 <= i <= j < hourly.len() ==> (#[trigger] hourly[i]).timestamp <= (
        #[trigger] hourly[j]).timestamp
}

proof fn lemma_filter_none(s: Seq<Forecast>, now: u64)
    requires
        forall|i: int| 0 <= i < s.len() ==> (#[trigger] s[i]).timestamp < now,
    ensures
        s.filter(due_at(now)) == Seq::<Forecast>::empty(),
    decreases s.len(),
{
    reveal(Seq::filter);
    if s.len() > 0 {
        lemma_filter_none(s.drop_last(), now);
    }
}

proof fn lemma_filter_all(s: Seq<Forecast>, now: u64)
    requires
        forall|i: int| 0 <= i < s.len() ==> (#[trigger] s[i]).timestamp >= now,
    ensures
        s.filter(due_at(now)) == s,
    decreases s.len(),
{
    reveal(Seq::filter);
    if s.len() > 0 {
        lemma_filter_all(s.drop_last(), now);
        assert(s.drop_last().push(s.last()) =~= s);
    }
}

/// On a chronological sequence the upcoming hours are one unbroken run in
/// ascending order of time: where `first` is the position of the first
/// reading that is not yet past, they are the readings from `first` on, up to
/// `MAX_UPCOMING` of them.
pub proof fn lemma_upcoming_of_chronological(hourly: Seq<Forecast>, now: u64, first: int)
    requires
        chronological(hourly),
        0 <= first <= hourly.len(),
        forall|i: int| 0 <= i < first ==> (#[trigger] hourly[i]).timestamp < now,
        first < hourly.len() ==> hourly[first].timestamp >= now,
    ensures
        upcoming(hourly, now) == hourly.subrange(
            first,
            if first + MAX_UPCOMING <= hourly.len() {
                first + MAX_UPCOMING
            } else {
                hourly.len() as int
            },
        ),
        chronological(upcoming(hourly, now)),
{
    let head = hourly.take(first);
    let tail = hourly.skip(first);
    assert(head + tail =~= hourly);
    Seq::filter_distributes_over_add(head, tail, due_at(now));
    lemma_filter_none(head, now);
    assert forall|i: int| 0 <= i < tail.len() implies (#[trigger] tail[i]).timestamp >= now by {
        assert(tail[i] == hourly[first + i]);
        assert(hourly[first].timestamp <= hourly[first + i].timestamp);
    }
    lemma_filter_all(tail, now);
    assert(hourly.filter(due_at(now)) =~= tail);
    let end = if first + MAX_UPCOMING <= hourly.len() {
        first + MAX_UPCOMING
    } else {
        hourly.len() as int
    };
    assert(upcoming(hourly, now) =~= hourly.subrange(first, end));
}

/// The encoding depends on nothing but the readings and `now`: snapshots that
/// hold the same readings have the same bytes at the same time.
pub proof fn lemma_encoding_of_equal_readings(a: WeatherSnapshot, b: WeatherSnapshot, now: u64)
    requires
        a.current == b.current,
        a.hourly@ == b.hourly@,
        a.daily@ == b.daily@,
    ensures
        encoding(a@, now) == encoding(b@, now),
{
}

/// The length of an encoding: one point block for the current conditions,
/// one for each upcoming hour, and one daily block for each day.
pub proof fn lemma_encoding_len(s: SnapshotView, now: u64)
    ensures
        encoding(s, now).len() == POINT_BLOCK_LEN + POINT_BLOCK_LEN * upcoming(s.hourly, now).len()
            + DAILY_BLOCK_LEN * s.daily.len(),
        upcoming(s.hourly, now).len() <= MAX_UPCOMING,
{
    lemma_point_blocks_len(upcoming(s.hourly, now));
    lemma_daily_blocks_len(s.daily);
    lemma_upcoming_bounds(s.hourly, now);
}

impl Forecast {
    /// Appends this reading's block to `out`.
    pub fn write_to(&self, out: &mut Vec<u8>)
        ensures
            final(out)@ == old(out)@ + point_block(*self),
    {
        put_u32(out, self.temperature);
        put_u32(out, self.humidity);
        put_u16(out, self.condition_code);
        assert(out@ =~= old(out)@ + point_block(*self));
    }
}

impl DailyForecast {
    /// Appends this reading's block to `out`.
    pub fn write_to(&self, out: &mut Vec<u8>)
        ensures
            final(out)@ == old(out)@ + daily_block(*self),
    {
        put_u32(out, self.temperature);
        put_u32(out, self.humidity);
        put_u32(out, self.temp_min);
        put_u32(out, self.temp_max);
        put_u16(out, self.condition_code);
        assert(out@ =~= old(out)@ + daily_block(*self));
    }
}

/// Picks the upcoming hours of `hourly` at `now`.
pub fn upcoming_hours(hourly: &Vec<Forecast>, now: u64) -> (picked: Vec<Forecast>)
    ensures
        picked@ == upcoming(hourly@, now),
{
    let ghost due = due_at(now);
    let mut picked: Vec<Forecast> = Vec::new();
    let mut i: usize = 0;
    proof {
        reveal(Seq::filter);
        assert(hourly@.take(0) =~= Seq::<Forecast>::empty());
    }
    while i < hourly.len() && picked.len() < MAX_UPCOMING
        invariant
            i <= hourly.len(),
            due == due_at(now),
            picked@ == hourly@.take(i as int).filter(due),
            picked@.len() <= MAX_UPCOMING,
        decreases hourly.len() - i,
    {
        let h = hourly[i];
        proof {
            reveal(Seq::filter);
            let next = hourly@.take(i as int + 1);
            assert(next.drop_last() =~= hourly@.take(i as int));
            assert(next.last() == h);
        }
        if h.timestamp >= now {
            picked.push(h);
        }
        i += 1;
    }
    proof {
        let head = hourly@.take(i as int);
        let tail = hourly@.skip(i as int);
        assert(head + tail =~= hourly@);
        Seq::filter_distributes_over_add(head, tail, due);
        assert(hourly@.filter(due) == picked@ + tail.filter(due));
        if i == hourly.len() {
            assert(tail =~= Seq::<Forecast>::empty());
            reveal(Seq::filter);
            assert(tail.filter(due) =~= Seq::<Forecast>::empty());
            assert(hourly@.filter(due) =~= picked@);
        } else {
            assert(picked@.len() == MAX_UPCOMING);
            assert((picked@ + tail.filter(due)).take(MAX_UPCOMING as int) =~= picked@);
            if tail.filter(due).len() == 0 {
                assert(picked@ + tail.filter(due) =~= picked@);
            }
        }
    }
    picked
}

/// Encodes a snapshot for the time `now`. The bytes are a function of the
/// snapshot and of `now` alone.
pub fn encode(snapshot: &WeatherSnapshot, now: u64) -> (out: Vec<u8>)
    ensures
        out@ == encoding(snapshot@, now),
        out@.len() == POINT_BLOCK_LEN + POINT_BLOCK_LEN * upcoming(snapshot@.hourly, now).len()
            + DAILY_BLOCK_LEN * snapshot@.daily.len(),
{
    let mut out: Vec<u8> = Vec::new();
    snapshot.current.write_to(&mut out);
    assert(out@ =~= point_block(snapshot.current));

    let hours = upcoming_hours(&snapshot.hourly, now);
    let mut i: usize = 0;
    assert(hours@.take(0) =~= Seq::<Forecast>::empty());
    assert(point_blocks(Seq::<Forecast>::empty()) =~= Seq::<u8>::empty());
    while i < hours.len()
        invariant
            i <= hours.len(),
            out@ == point_block(snapshot.current) + point_blocks(hours@.take(i as int)),
        decreases hours.len() - i,
    {
        proof {
            lemma_point_blocks_push(hours@.take(i as int), hours@[i as int]);
            assert(hours@.take(i as int).push(hours@[i as int]) =~= hours@.take(i as int + 1));
        }
        hours[i].write_to(&mut out);
        i += 1;
    }
    assert(hours@.take(i as int) =~= hours@);

    let ghost head = out@;
    let mut j: usize = 0;
    assert(snapshot.daily@.take(0) =~= Seq::<DailyForecast>::empty());
    assert(daily_blocks(Seq::<DailyForecast>::empty()) =~= Seq::<u8>::empty());
    while j < snapshot.daily.len()
        invariant
            j <= snapshot.daily.len(),
            out@ == head + daily_blocks(snapshot.daily@.take(j as int)),
        decreases snapshot.daily.len() - j,
    {
        proof {
            lemma_daily_blocks_push(snapshot.daily@.take(j as int), snapshot.daily@[j as int]);
            assert(snapshot.daily@.take(j as int).push(snapshot.daily@[j as int])
                =~= snapshot.daily@.take(j as int + 1));
        }
        snapshot.daily[j].write_to(&mut out);
        j += 1;
    }
    proof {
        assert(snapshot.daily@.take(j as int) =~= snapshot.daily@);
        lemma_encoding_len(snapshot@, now);
    }
    out
}

} // verus!
