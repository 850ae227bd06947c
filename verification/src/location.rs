//! The record of what the positioning receiver has reported, and the
//! collecting of its sentences from single bytes.
use vstd::prelude::*;
use numtoa::NumToA;
use yanp::parse::SentenceData;

verus! {

/// Longest sentence that the receiver sends, in bytes.
pub const SENTENCE_CAPACITY: usize = 82;

/// Shortest run of bytes that can be a sentence.
pub const MIN_SENTENCE_LEN: usize = 12;

/// The byte that ends a sentence.
pub const END_OF_SENTENCE: u8 = 10;

/// The earliest and latest year that a date can have.
pub const MIN_YEAR: i32 = -100_000;

pub const MAX_YEAR: i32 = 100_000;

/// How good the receiver's fix is.
#[derive(Clone, Copy, Debug, PartialEq, Eq, Structural)]
pub enum GpsQuality {
    FixNotAvailable,
    Fix,
    DifferentialFix,
}

/// A position in degrees, each coordinate as the bit pattern of an IEEE
/// 754 single.
#[derive(Clone, Copy, Debug, PartialEq, Eq, Structural)]
pub struct GpsPosition {
    pub lat: u32,
    pub lon: u32,
}

/// A time of day as a sentence reports it; the fields are not checked.
#[derive(Clone, Copy, Debug, PartialEq, Eq, Structural)]
pub struct GpsTime {
    pub hour: u8,
    pub minute: u8,
    pub second: u8,
}

/// A date as a sentence reports it; the fields are not checked.
#[derive(Clone, Copy, Debug, PartialEq, Eq, Structural)]
pub struct GpsDate {
    pub day: u8,
    pub month: u8,
    pub year: u64,
}

/// A time of day that exists.
#[derive(Clone, Copy, Debug, PartialEq, Eq, Structural)]
pub struct Time {
    pub hour: u8,
    pub minute: u8,
    pub second: u8,
}

/// A date of the proleptic Gregorian calendar that exists.
#[derive(Clone, Copy, Debug, PartialEq, Eq, Structural)]
pub struct Date {
    pub year: i32,
    pub month: u8,
    pub day: u8,
}

/// A date with a time of day.
#[derive(Clone, Copy, Debug, PartialEq, Eq, Structural)]
pub struct DateTime {
    pub date: Date,
    pub time: Time,
}

/// What a fix sentence (GGA) tells.
#[derive(Clone, Copy, Debug, PartialEq, Eq, Structural)]
pub struct GgaData {
    pub time: Option<GpsTime>,
    pub position: GpsPosition,
    pub quality: Option<GpsQuality>,
}

/// What a minimum navigation sentence (RMC) tells.
#[derive(Clone, Copy, Debug, PartialEq, Eq, Structural)]
pub struct RmcData {
    pub time: Option<GpsTime>,
    pub position: GpsPosition,
    pub date: Option<GpsDate>,
}

/// A parsed sentence, as far as the record takes anything from it.
#[derive(Clone, Copy, Debug, PartialEq, Eq, Structural)]
pub enum Sentence {
    Gga(GgaData),
    Rmc(RmcData),
    Other,
}

/// The kinds of sentences that the record tells apart.
#[derive(Clone, Copy, Debug, PartialEq, Eq, Structural)]
pub enum SentenceKind {
    Gga,
    Rmc,
    Other,
}

/// What the receiver has reported so far.
#[derive(Clone, Copy, Debug, PartialEq, Eq, Structural)]
pub struct GpsData {
    pub date: Option<Date>,
    pub position: Option<GpsPosition>,
    pub quality: Option<GpsQuality>,
    pub time: Option<Time>,
    /// Seconds from the epoch to the reported date and time, modulo 2^32.
    pub epoch_seconds: Option<u32>,
}

/// Whether hour, minute and second name a time of day.
pub open spec fn valid_time(hour: u8, minute: u8, second: u8) -> bool {
    hour <= 23 && minute <= 59 && second <= 59
}

/// Whether `year` has 366 days.
pub open spec fn is_leap_year(year: i32) -> bool {
    year % 4 == 0 && (year % 100 != 0 || year % 400 == 0)
}

/// The number of days of the month `month` of `year`, for months from 1 to
/// 12.
pub open spec fn days_in_month(year: i32, month: u8) -> int {
    if month == 2 {
        if is_leap_year(year) {
            29
        } else {
            28
        }
    } else if month == 4 || month == 6 || month == 9 || month == 11 {
        30
    } else {
        31
    }
}

/// Whether year, month and day name a date.
pub open spec fn valid_date(year: i32, month: u8, day: u8) -> bool {
    &&& MIN_YEAR <= year <= MAX_YEAR
    &&& 1 <= month <= 12
    &&& 1 <= day <= days_in_month(year, month)
}

/// The low 32 bits of a number of seconds, in two's complement.
pub open spec fn low32(seconds: int) -> u32 {
    (seconds % 0x1_0000_0000) as u32
}

/// The low 32 bits of a year, read as a signed number.
pub open spec fn year_i32(year: u64) -> i32 {
    let low = year % 0x1_0000_0000;
    if low >= 0x8000_0000 {
        (low - 0x1_0000_0000) as i32
    } else {
        low as i32
    }
}

/// The checked form of a reported time of day.
pub open spec fn checked_time(time: GpsTime) -> Option<Time> {
    if valid_time(time.hour, time.minute, time.second) {
        Some(Time { hour: time.hour, minute: time.minute, second: time.second })
    } else {
        None
    }
}

/// The checked form of a reported date.
pub open spec fn checked_date(date: GpsDate) -> Option<Date> {
    if valid_date(year_i32(date.year), date.month, date.day) {
        Some(Date { year: year_i32(date.year), month: date.month, day: date.day })
    } else {
        None
    }
}

/// The whole seconds from `earlier` to `later`, negative if `later` comes
/// first.
pub uninterp spec fn seconds_between(later: DateTime, earlier: DateTime) -> int;

/// The number `x` in base 16 with the digits `0` to `9` and `A` to `F`,
/// without leading zeros.
pub open spec fn spec_hex_digits(x: u8) -> Seq<u8> {
    if x < 16 {
        seq![hex_digit(x as int)]
    } else {
        seq![hex_digit(x as int / 16), hex_digit(x as int % 16)]
    }
}

/// The digit for a value below 16.
pub open spec fn hex_digit(value: int) -> u8 {
    if value < 10 {
        (48 + value) as u8
    } else {
        (55 + value) as u8
    }
}

/// All bytes combined by exclusive or.
pub open spec fn checksum(bytes: Seq<u8>) -> u8
    decreases bytes.len(),
{
    if bytes.len() == 0 {
        0
    } else {
        checksum(bytes.drop_last()) ^ bytes.last()
    }
}

/// The bytes that carry `command` to the receiver: a dollar sign, the
/// command, its checksum in base 16, carriage return and line feed.
pub open spec fn spec_command_frame(command: Seq<u8>) -> Seq<u8> {
    seq![36u8] + command + spec_hex_digits(checksum(command)) + seq![13u8, 10u8]
}

/// `time::Time::try_from_hms`: the time of day, if hour, minute and second
/// name one. The source accepts hours up to 23 and minutes and seconds up
/// to 59.
#[verifier::external_body]
fn time_from_hms(hour: u8, minute: u8, second: u8) -> (time: Option<Time>)
    ensures
        time == if valid_time(hour, minute, second) {
            Some(Time { hour, minute, second })
        } else {
            None
        },
{
    time::Time::try_from_hms(hour, minute, second).ok().map(
        |t| Time { hour: t.hour(), minute: t.minute(), second: t.second() },
    )
}

/// `time::Date::try_from_ymd`: the date, if year, month and day name one.
/// The source accepts years of at most 100000 in magnitude, months from 1
/// to 12 and days from 1 to the length of the month.
#[verifier::external_body]
fn date_from_ymd(year: i32, month: u8, day: u8) -> (date: Option<Date>)
    ensures
        date == if valid_date(year, month, day) {
            Some(Date { year, month, day })
        } else {
            None
        },
{
    time::Date::try_from_ymd(year, month, day).ok().map(
        |d| Date { year: d.year(), month: d.month(), day: d.day() },
    )
}

/// The difference of two `time::PrimitiveDateTime` in whole seconds
/// (`Duration::whole_seconds`). Both arguments have to be dates and times
/// that exist.
#[verifier::external_body]
fn whole_seconds_between(later: &DateTime, earlier: &DateTime) -> (seconds: i64)
    requires
        later.wf(),
        earlier.wf(),
    ensures
        seconds == seconds_between(*later, *earlier),
{
    let a = time::PrimitiveDateTime::new(
        time::Date::try_from_ymd(later.date.year, later.date.month, later.date.day).unwrap(),
        time::Time::try_from_hms(later.time.hour, later.time.minute, later.time.second).unwrap(),
    );
    let b = time::PrimitiveDateTime::new(
        time::Date::try_from_ymd(earlier.date.year, earlier.date.month, earlier.date.day).unwrap(),
        time::Time::try_from_hms(earlier.time.hour, earlier.time.minute, earlier.time.second).unwrap(),
    );
    (a - b).whole_seconds()
}

/// `numtoa::NumToA::numtoa` in base 16: the digits of `x`, the most
/// significant first, upper case and without leading zeros.
#[verifier::external_body]
fn numtoa_hex(x: u8) -> (digits: Vec<u8>)
    ensures
        digits@ == spec_hex_digits(x),
{
    let mut buffer = [0u8; 2];
    x.numtoa(16, &mut buffer).to_vec()
}

/// What is picked out of a parsed sentence: its kind; the time of day as
/// hour, minute and whole second; the position as the bit patterns of
/// latitude and longitude; the fix quality as its number; the date as day,
/// month and year.
pub type SentenceFields = (
    SentenceKind,
    Option<(u8, u8, u8)>,
    Option<(u32, u32)>,
    Option<u8>,
    Option<(u8, u8, u64)>,
);

/// What the parser makes of the bytes of a sentence: nothing where it
/// accepts them as no sentence, else the fields that it has parsed.
pub uninterp spec fn nmea_fields(sentence: Seq<u8>) -> Option<SentenceFields>;

/// `yanp::parse_nmea_sentence`: the fields of the parsed sentence, or
/// nothing where the bytes are no sentence that the parser accepts. The
/// result is a function of the bytes alone; the contract names it and says
/// no more. Of a fix sentence the fields are time, position and quality, of
/// a minimum navigation sentence time, position and date, of any other
/// sentence none; the seconds are cut to a whole number, and the quality is
/// counted from 0 for no fix. The parser cuts the sentence into a head of 7
/// bytes, a tail of 4 bytes and at least one byte between them before it
/// looks at any of them, so the call requires that many bytes.
#[verifier::external_body]
fn parse_nmea_sentence(sentence: &[u8]) -> (fields: Option<SentenceFields>)
    requires
        sentence@.len() >= MIN_SENTENCE_LEN,
    ensures
        fields == nmea_fields(sentence@),
{
    let (kind, time, position, quality, date) = match yanp::parse_nmea_sentence(sentence).ok()? {
        SentenceData::GGA(d) => (SentenceKind::Gga, d.time, Some(d.position), d.quality, None),
        SentenceData::RMC(d) => (SentenceKind::Rmc, d.time, Some(d.position), None, d.date),
        _ => (SentenceKind::Other, None, None, None, None),
    };
    Some((
        kind,
        time.map(|t| (t.hour, t.minute, t.second as u8)),
        position.map(|p| (p.lat.to_bits(), p.lon.to_bits())),
        quality.map(|q| q as u8),
        date.map(|d| (d.day, d.month, d.year)),
    ))
}

/// The fix quality that a number stands for.
pub open spec fn spec_quality(code: u8) -> Option<GpsQuality> {
    if code == 0 {
        Some(GpsQuality::FixNotAvailable)
    } else if code == 1 {
        Some(GpsQuality::Fix)
    } else if code == 2 {
        Some(GpsQuality::DifferentialFix)
    } else {
        None
    }
}

/// The time of day that the fields hold.
pub open spec fn spec_fields_time(fields: SentenceFields) -> Option<GpsTime> {
    match fields.1 {
        Some(time) => Some(GpsTime { hour: time.0, minute: time.1, second: time.2 }),
        None => None,
    }
}

/// The sentence that the fields make up: a fix sentence or a minimum
/// navigation sentence where they are of that kind and hold a position,
/// and a sentence that the record does not read otherwise.
pub open spec fn spec_sentence_from_fields(fields: SentenceFields) -> Sentence {
    match (fields.0, fields.2) {
        (SentenceKind::Gga, Some(position)) => Sentence::Gga(
            GgaData {
                time: spec_fields_time(fields),
                position: GpsPosition { lat: position.0, lon: position.1 },
                quality: match fields.3 {
                    Some(code) => spec_quality(code),
                    None => None,
                },
            },
        ),
        (SentenceKind::Rmc, Some(position)) => Sentence::Rmc(
            RmcData {
                time: spec_fields_time(fields),
                position: GpsPosition { lat: position.0, lon: position.1 },
                date: match fields.4 {
                    Some(date) => Some(GpsDate { day: date.0, month: date.1, year: date.2 }),
                    None => None,
                },
            },
        ),
        _ => Sentence::Other,
    }
}

/// What parsing makes of the bytes of a sentence: nothing where they are
/// fewer than a sentence has at least or the parser accepts them as no
/// sentence, else the sentence that the parsed fields make up.
pub open spec fn spec_parse(sentence: Seq<u8>) -> Option<Sentence> {
    if sentence.len() < MIN_SENTENCE_LEN {
        None
    } else {
        match nmea_fields(sentence) {
            Some(fields) => Some(spec_sentence_from_fields(fields)),
            None => None,
        }
    }
}

/// Makes up the sentence from the fields that were picked out of it; see
/// [`spec_sentence_from_fields`].
pub fn sentence_from_fields(fields: SentenceFields) -> (data: Sentence)
    ensures
        data == spec_sentence_from_fields(fields),
{
    let (kind, time, position, quality, date) = fields;
    let time = match time {
        Some((hour, minute, second)) => Some(GpsTime { hour, minute, second }),
        None => None,
    };
    match (kind, position) {
        (SentenceKind::Gga, Some((lat, lon))) => {
            let quality = match quality {
                Some(0) => Some(GpsQuality::FixNotAvailable),
                Some(1) => Some(GpsQuality::Fix),
                Some(2) => Some(GpsQuality::DifferentialFix),
                _ => None,
            };
            Sentence::Gga(GgaData { time, position: GpsPosition { lat, lon }, quality })
        },
        (SentenceKind::Rmc, Some((lat, lon))) => {
            let date = match date {
                Some((day, month, year)) => Some(GpsDate { day, month, year }),
                None => None,
            };
            Sentence::Rmc(RmcData { time, position: GpsPosition { lat, lon }, date })
        },
        _ => Sentence::Other,
    }
}

/// Parses a sentence of the receiver, its end included, and picks out what
/// the record takes from it. Bytes that are no sentence give `None`, and
/// fewer bytes than a sentence has at least are never one. Which bytes are
/// a sentence, and what its fields hold, is the parser's to say.
pub fn parse(sentence: &[u8]) -> (data: Option<Sentence>)
    ensures
        data == spec_parse(sentence@),
        sentence@.len() < MIN_SENTENCE_LEN ==> data.is_none(),
{
    if sentence.len() < MIN_SENTENCE_LEN {
        return None;
    }
    match parse_nmea_sentence(sentence) {
        None => None,
        Some(fields) => Some(sentence_from_fields(fields)),
    }
}

impl Time {
    pub open spec fn wf(&self) -> bool {
        valid_time(self.hour, self.minute, self.second)
    }
}

impl Date {
    pub open spec fn wf(&self) -> bool {
        valid_date(self.year, self.month, self.day)
    }
}

impl DateTime {
    pub open spec fn wf(&self) -> bool {
        self.date.wf() && self.time.wf()
    }
}

impl GpsData {
    /// Every date and time of the record exists.
    pub open spec fn wf(&self) -> bool {
        &&& self.date matches Some(date) ==> date.wf()
        &&& self.time matches Some(time) ==> time.wf()
    }

    /// The record after it has taken what the sentence tells, before the
    /// seconds since the epoch are brought up to date. A time or date that
    /// the sentence reports replaces the record's, and clears it if it does
    /// not exist; one that the sentence leaves out keeps the record's.
    pub open spec fn absorbed(&self, data: Sentence) -> GpsData {
        match data {
            Sentence::Gga(gga) => GpsData {
                time: match gga.time {
                    Some(time) => checked_time(time),
                    None => self.time,
                },
                position: Some(gga.position),
                quality: gga.quality,
                ..*self
            },
            Sentence::Rmc(rmc) => GpsData {
                time: match rmc.time {
                    Some(time) => checked_time(time),
                    None => self.time,
                },
                position: Some(rmc.position),
                date: match rmc.date {
                    Some(date) => checked_date(date),
                    None => self.date,
                },
                ..*self
            },
            Sentence::Other => *self,
        }
    }

    /// The date and time of the record, if it holds both.
    pub open spec fn date_time(&self) -> Option<DateTime> {
        match (self.date, self.time) {
            (Some(date), Some(time)) => Some(DateTime { date, time }),
            _ => None,
        }
    }

    /// The record with the seconds since the epoch set.
    pub open spec fn with_epoch_seconds(&self, seconds: int) -> GpsData {
        GpsData { epoch_seconds: Some(low32(seconds)), ..*self }
    }

    /// The record after an update with `data`.
    pub open spec fn updated(&self, epoch: DateTime, data: Sentence) -> GpsData {
        if data is Other {
            *self
        } else {
            match self.absorbed(data).date_time() {
                Some(now) => self.absorbed(data).with_epoch_seconds(seconds_between(now, epoch)),
                None => self.absorbed(data),
            }
        }
    }

    /// A record that holds nothing.
    pub fn new() -> (data: Self)
        ensures
            data == (GpsData {
                date: None,
                position: None,
                quality: None,
                time: None,
                epoch_seconds: None,
            }),
            data.wf(),
    {
        GpsData { date: None, position: None, quality: None, time: None, epoch_seconds: None }
    }

    /// Sets the seconds since the epoch to the low 32 bits of `seconds`.
    pub fn set_epoch_seconds(&mut self, seconds: i64)
        ensures
            *final(self) == old(self).with_epoch_seconds(seconds as int),
    {
        let modulus: u64 = 0x1_0000_0000;
        let low: u64 = if seconds >= 0 {
            (seconds as u64) % modulus
        } else {
            let below: u64 = (-(seconds + 1)) as u64;
            modulus - 1 - (below % modulus)
        };
        assert(low == (seconds as int) % 0x1_0000_0000) by {
            if seconds < 0 {
                let below = -(seconds + 1) as int;
                let q = below / 0x1_0000_0000;
                let r = below % 0x1_0000_0000;
                assert(below == q * 0x1_0000_0000 + r);
                assert(seconds as int == (-q - 1) * 0x1_0000_0000 + (0x1_0000_0000 - 1 - r));
                vstd::arithmetic::div_mod::lemma_fundamental_div_mod_converse(
                    seconds as int,
                    0x1_0000_0000,
                    -q - 1,
                    0x1_0000_0000 - 1 - r,
                );
            }
        }
        self.epoch_seconds = Some(low as u32);
    }

    /// Takes what a sentence tells into the record. A fix sentence brings
    /// time, position and quality, a minimum navigation sentence time,
    /// position and date; any other sentence changes nothing. Once the
    /// record holds both a date and a time, the seconds from `epoch` to
    /// them are kept up to date. The answer says whether the sentence was
    /// one of the two kinds.
    pub fn update(&mut self, epoch: DateTime, data: Sentence) -> (taken: bool)
        requires
            old(self).wf(),
            epoch.wf(),
        ensures
            final(self).wf(),
            taken == !(data is Other),
            *final(self) == old(self).updated(epoch, data),
    {
        match data {
            Sentence::Gga(gga) => {
                if let Some(gps_time) = gga.time {
                    self.time = time_from_hms(gps_time.hour, gps_time.minute, gps_time.second);
                }
                self.position = Some(gga.position);
                self.quality = gga.quality;
            },
            Sentence::Rmc(rmc) => {
                if let Some(gps_time) = rmc.time {
                    self.time = time_from_hms(gps_time.hour, gps_time.minute, gps_time.second);
                }
                self.position = Some(rmc.position);
                if let Some(gps_date) = rmc.date {
                    self.date = date_from_ymd(year_to_i32(gps_date.year), gps_date.month, gps_date.day);
                }
            },
            Sentence::Other => {
                return false;
            },
        }
        if let Some(gps_date) = self.date {
            if let Some(gps_time) = self.time {
                let now = DateTime { date: gps_date, time: gps_time };
                let seconds = whole_seconds_between(&now, &epoch);
                self.set_epoch_seconds(seconds);
            }
        }
        true
    }
}

/// The low 32 bits of a year, read as a signed number.
pub fn year_to_i32(year: u64) -> (low: i32)
    ensures
        low == year_i32(year),
{
    let low: u64 = year % 0x1_0000_0000;
    if low >= 0x8000_0000 {
        (low as i64 - 0x1_0000_0000) as i32
    } else {
        low as i32
    }
}

/// The state of the link to the positioning receiver: the sentence that is
/// being collected and the record of what was reported.
pub struct UltimateGps {
    pub sentence_buffer_len: usize,
    pub sentence_buffer: [u8; SENTENCE_CAPACITY],
    pub epoch: DateTime,
    pub data: GpsData,
}

impl UltimateGps {
    pub open spec fn wf(&self) -> bool {
        &&& self.sentence_buffer_len <= SENTENCE_CAPACITY
        &&& self.epoch.wf()
        &&& self.data.wf()
    }

    /// The bytes collected of the current sentence.
    pub open spec fn collected(&self) -> Seq<u8> {
        self.sentence_buffer@.take(self.sentence_buffer_len as int)
    }

    /// The bytes that a new byte is added to: those collected, or none once
    /// they fill the buffer, since no sentence is longer than the buffer.
    pub open spec fn kept(&self) -> Seq<u8> {
        if self.sentence_buffer_len == SENTENCE_CAPACITY {
            Seq::empty()
        } else {
            self.collected()
        }
    }

    /// A link that has collected and recorded nothing, with the epoch at
    /// the start of 30 June 2020.
    pub fn new() -> (gps: Self)
        ensures
            gps.wf(),
            gps.sentence_buffer_len == 0,
            gps.epoch == (DateTime {
                date: Date { year: 2020, month: 6, day: 30 },
                time: Time { hour: 0, minute: 0, second: 0 },
            }),
            gps.data == (GpsData {
                date: None,
                position: None,
                quality: None,
                time: None,
                epoch_seconds: None,
            }),
    {
        UltimateGps {
            sentence_buffer_len: 0,
            sentence_buffer: [0u8; SENTENCE_CAPACITY],
            epoch: DateTime {
                date: Date { year: 2020, month: 6, day: 30 },
                time: Time { hour: 0, minute: 0, second: 0 },
            },
            data: GpsData::new(),
        }
    }

    /// Adds a byte from the receiver to the sentence that is being
    /// collected. With the byte that ends a sentence, the sentence is
    /// handed out, that byte included, and the collecting starts anew.
    pub fn push(&mut self, b: u8) -> (sentence: Option<Vec<u8>>)
        requires
            old(self).wf(),
        ensures
            final(self).wf(),
            final(self).epoch == old(self).epoch,
            final(self).data == old(self).data,
            b == END_OF_SENTENCE ==> sentence.is_some() && sentence.unwrap()@ == old(self).kept().push(b) && final(self).sentence_buffer_len == 0,
            b != END_OF_SENTENCE ==> sentence.is_none() && final(self).collected() == old(self).kept().push(b),
    {
        if self.sentence_buffer_len == SENTENCE_CAPACITY {
            self.sentence_buffer_len = 0;
        }
        let ghost kept = self.collected();
        self.sentence_buffer[self.sentence_buffer_len] = b;
        self.sentence_buffer_len += 1;
        assert(self.collected() =~= kept.push(b));
        if b != END_OF_SENTENCE {
            return None;
        }
        let mut sentence: Vec<u8> = Vec::new();
        let mut i: usize = 0;
        while i < self.sentence_buffer_len
            invariant
                i <= self.sentence_buffer_len <= SENTENCE_CAPACITY,
                sentence@ == self.sentence_buffer@.take(i as int),
            decreases self.sentence_buffer_len - i,
        {
            sentence.push(self.sentence_buffer[i]);
            assert(self.sentence_buffer@.take(i + 1) =~= self.sentence_buffer@.take(i as int).push(
                self.sentence_buffer@[i as int],
            ));
            i += 1;
        }
        self.sentence_buffer_len = 0;
        Some(sentence)
    }

    /// What a byte from the receiver makes of the record: nothing until the
    /// byte ends a sentence; then the update with the sentence that the
    /// collected bytes parse to, if they parse to one.
    pub open spec fn received(&self, b: u8) -> GpsData {
        if b != END_OF_SENTENCE {
            self.data
        } else {
            match spec_parse(self.kept().push(b)) {
                Some(data) => self.data.updated(self.epoch, data),
                None => self.data,
            }
        }
    }

    /// Takes a byte from the receiver. As long as the sentence is not
    /// complete the answer is `None`. With the byte that ends it, the
    /// sentence is parsed and taken into the record, and the answer says
    /// whether the record has read it: bytes that are no sentence, and
    /// sentences of other kinds than the two that the record reads, leave
    /// the record as it is.
    pub fn receive(&mut self, b: u8) -> (updated: Option<bool>)
        requires
            old(self).wf(),
        ensures
            final(self).wf(),
            final(self).epoch == old(self).epoch,
            final(self).data == old(self).received(b),
            b == END_OF_SENTENCE ==> final(self).sentence_buffer_len == 0 && updated == Some(
                match spec_parse(old(self).kept().push(b)) {
                    Some(data) => !(data is Other),
                    None => false,
                },
            ),
            b != END_OF_SENTENCE ==> updated.is_none() && final(self).collected() == old(self).kept().push(b),
    {
        match self.push(b) {
            None => None,
            Some(sentence) => {
                let updated = match parse(sentence.as_slice()) {
                    Some(data) => self.data.update(self.epoch, data),
                    None => false,
                };
                Some(updated)
            },
        }
    }

    /// Whether the receiver has a fix.
    pub fn has_fix(&self) -> (fix: bool)
        ensures
            fix == (self.data.quality == Some(GpsQuality::Fix) || self.data.quality == Some(
                GpsQuality::DifferentialFix,
            )),
    {
        match self.data.quality {
            Some(GpsQuality::Fix) => true,
            Some(GpsQuality::DifferentialFix) => true,
            _ => false,
        }
    }

    /// The record of what was reported.
    pub fn data(&self) -> (data: &GpsData)
        ensures
            *data == self.data,
    {
        &self.data
    }

    /// The time of day that was last reported.
    pub fn try_time(&self) -> (time: &Option<Time>)
        ensures
            *time == self.data.time,
    {
        &self.data.time
    }

    /// Frames a command for the receiver. The command comes without the
    /// dollar sign before it and the checksum after it: both are added.
    pub fn send_command(&self, command: &[u8]) -> (frame: Vec<u8>)
        ensures
            frame@ == spec_command_frame(command@),
    {
        let mut frame: Vec<u8> = Vec::new();
        frame.push(36u8);
        let mut sum: u8 = 0;
        let mut i: usize = 0;
        while i < command.len()
            invariant
                i <= command@.len(),
                sum == checksum(command@.take(i as int)),
                frame@ == seq![36u8] + command@.take(i as int),
            decreases command@.len() - i,
        {
            frame.push(command[i]);
            sum = sum ^ command[i];
            proof {
                let next = command@.take(i + 1);
                assert(next.drop_last() =~= command@.take(i as int));
                assert(next.last() == command@[i as int]);
                assert(frame@ =~= seq![36u8] + next);
            }
            i += 1;
        }
        assert(command@.take(command@.len() as int) =~= command@);
        let digits = numtoa_hex(sum);
        let ghost before = frame@;
        let mut k: usize = 0;
        while k < digits.len()
            invariant
                k <= digits@.len(),
                frame@ == before + digits@.take(k as int),
            decreases digits@.len() - k,
        {
            frame.push(digits[k]);
            assert(digits@.take(k + 1) =~= digits@.take(k as int).push(digits@[k as int]));
            assert(frame@ =~= before + digits@.take(k + 1));
            k += 1;
        }
        assert(digits@.take(digits@.len() as int) =~= digits@);
        frame.push(13u8);
        frame.push(10u8);
        assert(frame@ =~= spec_command_frame(command@));
        frame
    }
}

} // verus!
