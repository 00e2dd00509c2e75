use crate::field::{bias_of, scale_of, Field};
use crate::registry::{
    fields, matches_entry, registry, DATETIME_OFFSET, MAGIC_HEADER, MAGIC_LENGTH, RAW_WIDTH,
    SERIAL_END, SERIAL_START,
};
use vstd::prelude::*;

verus! {

/// Why a frame was rejected.
#[derive(Clone, Copy, PartialEq, Eq, Debug, Structural)]
pub enum FrameError {
    ShortFrame,
    BadMagic,
    InvalidSerial,
    InvalidTimestamp,
    FieldOutOfRange,
}

/// Number of bytes of the timestamp: year since 2000, month, day, hour,
/// minute and second, one byte each.
pub const DATETIME_LENGTH: usize = 6;

/// Date and time of a frame, as the device reports it.
#[derive(Clone, Copy, PartialEq, Eq, Debug, Structural)]
pub struct Timestamp {
    pub year: u16,
    pub month: u8,
    pub day: u8,
    pub hour: u8,
    pub minute: u8,
    pub second: u8,
}

/// One decoded measurement: the field it belongs to, the raw value read at
/// the field's offset, and the physical value in hundredths of the field's
/// unit.
#[derive(Clone, Copy, Debug)]
pub struct Measurement<'a> {
    pub field: Field<'a>,
    pub raw: u16,
    pub physical: i64,
}

/// Everything decoded from one frame.
#[derive(Debug)]
pub struct DecodedFrame<'a> {
    pub serial: String,
    pub timestamp: Timestamp,
    pub measurements: Vec<Measurement<'a>>,
}

/// The raw value stored big-endian at `off`.
pub open spec fn raw_at(b: Seq<u8>, off: int) -> int {
    b[off] * 256 + b[off + 1]
}

/// `b` with the raw value `r` stored big-endian at `off`.
pub open spec fn with_raw(b: Seq<u8>, off: int, r: u16) -> Seq<u8> {
    b.update(off, (r / 256) as u8).update(off + 1, (r % 256) as u8)
}

/// The physical value, in hundredths of the unit, of raw value `raw` in `f`.
pub open spec fn physical_of(f: Field, raw: int) -> int {
    raw * f.scale + f.bias
}

/// `m` is what decoding field `f` of frame `b` gives.
pub open spec fn decoded_from(m: Measurement, f: Field, b: Seq<u8>) -> bool {
    &&& m.field == f
    &&& m.raw == raw_at(b, f.offset as int)
    &&& m.physical == physical_of(f, m.raw as int)
}

/// Every field's raw value lies inside a buffer of `len` bytes.
pub open spec fn fields_in_range(fs: Seq<Field>, len: int) -> bool {
    forall|i: int| 0 <= i < fs.len() ==> #[trigger] fs[i].offset + RAW_WIDTH <= len
}

/// `x` is a printable ASCII character.
pub open spec fn printable(x: u8) -> bool {
    0x20 <= x <= 0x7e
}

/// The serial number bytes are printable ASCII.
pub open spec fn serial_valid(b: Seq<u8>) -> bool {
    forall|i: int| SERIAL_START <= i < SERIAL_END ==> printable(#[trigger] b[i])
}

/// The serial number as text.
pub open spec fn serial_text(b: Seq<u8>) -> Seq<char> {
    b.subrange(SERIAL_START as int, SERIAL_END as int).map_values(|x: u8| x as char)
}

/// `y` is a leap year of the Gregorian calendar.
pub open spec fn is_leap_year(y: int) -> bool {
    y % 4 == 0 && (y % 100 != 0 || y % 400 == 0)
}

/// Number of days in month `m` of year `y`; months outside `1..=12` count 31.
pub open spec fn days_in_month_spec(y: int, m: int) -> int {
    if m == 2 {
        if is_leap_year(y) { 29 } else { 28 }
    } else if m == 4 || m == 6 || m == 9 || m == 11 {
        30
    } else {
        31
    }
}

/// The timestamp bytes of `b`, read without checking them.
pub open spec fn timestamp_of(b: Seq<u8>) -> Timestamp {
    let o = DATETIME_OFFSET as int;
    Timestamp {
        year: (2000 + b[o]) as u16,
        month: b[o + 1],
        day: b[o + 2],
        hour: b[o + 3],
        minute: b[o + 4],
        second: b[o + 5],
    }
}

/// `t` is a real date and time of day.
pub open spec fn timestamp_valid(t: Timestamp) -> bool {
    &&& 1 <= t.month <= 12
    &&& 1 <= t.day <= days_in_month_spec(t.year as int, t.month as int)
    &&& t.hour < 24
    &&& t.minute < 60
    &&& t.second < 60
}

/// The error that checking the length and the first byte of `b` gives, if any.
pub open spec fn shape_error(b: Seq<u8>) -> Option<FrameError> {
    if b.len() != MAGIC_LENGTH {
        Some(FrameError::ShortFrame)
    } else if b[0] != MAGIC_HEADER {
        Some(FrameError::BadMagic)
    } else {
        None
    }
}

/// The error that decoding `b` gives, if any, in the order the checks run.
pub open spec fn decode_error(b: Seq<u8>) -> Option<FrameError> {
    if shape_error(b).is_some() {
        shape_error(b)
    } else if !serial_valid(b) {
        Some(FrameError::InvalidSerial)
    } else if !timestamp_valid(timestamp_of(b)) {
        Some(FrameError::InvalidTimestamp)
    } else {
        None
    }
}

/// Checks that `buf` has the length and the first byte of a frame.
pub fn validate(buf: &[u8]) -> (r: Result<(), FrameError>)
    ensures
        r is Ok <==> shape_error(buf@) is None,
        r matches Err(e) ==> shape_error(buf@) == Some(e),
        buf@.len() != MAGIC_LENGTH ==> r == Err::<(), FrameError>(FrameError::ShortFrame),
        buf@.len() > 0 && buf@[0] != MAGIC_HEADER ==> r is Err,
{
    if buf.len() != MAGIC_LENGTH {
        Err(FrameError::ShortFrame)
    } else if buf[0] != MAGIC_HEADER {
        Err(FrameError::BadMagic)
    } else {
        Ok(())
    }
}

/// Relies on `String::push`: appends one character at the end.
#[verifier::external_body]
fn push_char(s: &mut String, c: char)
    ensures
        final(s)@ == old(s)@.push(c),
{
    s.push(c);
}

/// Reads the device serial number, which must be printable ASCII.
pub fn serial(buf: &[u8]) -> (r: Result<String, FrameError>)
    requires
        buf@.len() >= SERIAL_END,
    ensures
        r is Ok <==> serial_valid(buf@),
        r matches Ok(s) ==> s@ == serial_text(buf@),
        r matches Err(e) ==> e == FrameError::InvalidSerial,
{
    let mut s = String::new();
    let mut i: usize = SERIAL_START;
    while i < SERIAL_END
        invariant
            SERIAL_START <= i <= SERIAL_END,
            buf@.len() >= SERIAL_END,
            forall|j: int| SERIAL_START <= j < i ==> printable(#[trigger] buf@[j]),
            s@ == buf@.subrange(SERIAL_START as int, i as int).map_values(|x: u8| x as char),
        decreases SERIAL_END - i,
    {
        let b = buf[i];
        if !(0x20 <= b && b <= 0x7e) {
            return Err(FrameError::InvalidSerial);
        }
        push_char(&mut s, b as char);
        proof {
            assert(buf@.subrange(SERIAL_START as int, i + 1) =~= buf@.subrange(
                SERIAL_START as int,
                i as int,
            ).push(b));
        }
        i = i + 1;
    }
    assert(s@ =~= serial_text(buf@));
    Ok(s)
}

/// Number of days in `month` of `year`; months outside `1..=12` count 31.
pub fn days_in_month(year: u16, month: u8) -> (r: u8)
    ensures
        r == days_in_month_spec(year as int, month as int),
{
    if month == 2 {
        if year % 4 == 0 && (year % 100 != 0 || year % 400 == 0) {
            29
        } else {
            28
        }
    } else if month == 4 || month == 6 || month == 9 || month == 11 {
        30
    } else {
        31
    }
}

/// Reads the timestamp and checks that it is a real date and time of day.
pub fn timestamp(buf: &[u8]) -> (r: Result<Timestamp, FrameError>)
    requires
        buf@.len() >= DATETIME_OFFSET + DATETIME_LENGTH,
    ensures
        r is Ok <==> timestamp_valid(timestamp_of(buf@)),
        r matches Ok(t) ==> t == timestamp_of(buf@),
        r matches Err(e) ==> e == FrameError::InvalidTimestamp,
{
    let o = DATETIME_OFFSET;
    let t = Timestamp {
        year: 2000 + buf[o] as u16,
        month: buf[o + 1],
        day: buf[o + 2],
        hour: buf[o + 3],
        minute: buf[o + 4],
        second: buf[o + 5],
    };
    if t.month < 1 || t.month > 12 || t.day < 1 || t.day > days_in_month(t.year, t.month)
        || t.hour >= 24 || t.minute >= 60 || t.second >= 60 {
        Err(FrameError::InvalidTimestamp)
    } else {
        Ok(t)
    }
}

/// Reads the raw value stored big-endian at `offset`.
pub fn read_raw(buf: &[u8], offset: usize) -> (r: u16)
    requires
        offset + RAW_WIDTH <= buf@.len(),
    ensures
        r == raw_at(buf@, offset as int),
{
    (buf[offset] as u16) * 256 + buf[offset + 1] as u16
}

/// Stores `raw` big-endian at `offset`.
pub fn write_raw(buf: &mut [u8], offset: usize, raw: u16)
    requires
        offset + RAW_WIDTH <= old(buf)@.len(),
    ensures
        final(buf)@ == with_raw(old(buf)@, offset as int, raw),
{
    buf[offset] = (raw / 256) as u8;
    buf[offset + 1] = (raw % 256) as u8;
}

/// Decodes every field of `registry` from `buf`, in registry order.
pub fn measurements<'a>(registry: &[Field<'a>], buf: &[u8]) -> (r: Result<
    Vec<Measurement<'a>>,
    FrameError,
>)
    requires
        forall|i: int| 0 <= i < registry@.len() ==> (#[trigger] registry@[i]).canonical(),
    ensures
        r is Ok <==> fields_in_range(registry@, buf@.len() as int),
        r matches Ok(ms) ==> {
            &&& ms@.len() == registry@.len()
            &&& forall|i: int|
                0 <= i < ms@.len() ==> decoded_from(#[trigger] ms@[i], registry@[i], buf@)
        },
        r matches Err(e) ==> e == FrameError::FieldOutOfRange,
{
    let mut out: Vec<Measurement<'a>> = Vec::new();
    let mut i: usize = 0;
    while i < registry.len()
        invariant
            i <= registry@.len(),
            out@.len() == i,
            forall|j: int| 0 <= j < registry@.len() ==> (#[trigger] registry@[j]).canonical(),
            forall|j: int| 0 <= j < i ==> #[trigger] registry@[j].offset + RAW_WIDTH <= buf@.len(),
            forall|j: int| 0 <= j < i ==> decoded_from(#[trigger] out@[j], registry@[j], buf@),
        decreases registry@.len() - i,
    {
        let f = registry[i];
        if f.offset > buf.len() || buf.len() - f.offset < RAW_WIDTH {
            return Err(FrameError::FieldOutOfRange);
        }
        let raw = read_raw(buf, f.offset);
        assert(f.canonical());
        let physical = raw as i64 * f.scale + f.bias;
        out.push(Measurement { field: f, raw, physical });
        i = i + 1;
    }
    Ok(out)
}

/// `d` is what decoding frame `b` against the registry gives.
pub open spec fn decoded_frame(d: DecodedFrame, b: Seq<u8>) -> bool {
    &&& d.serial@ == serial_text(b)
    &&& d.timestamp == timestamp_of(b)
    &&& d.measurements@.len() == registry().len()
    &&& forall|i: int|
        0 <= i < d.measurements@.len() ==> {
            let m = #[trigger] d.measurements@[i];
            &&& matches_entry(m.field, registry()[i])
            &&& decoded_from(m, m.field, b)
        }
}

/// Checks a frame and decodes its serial number, its timestamp and every
/// field of the registry.
pub fn decode(buf: &[u8]) -> (r: Result<DecodedFrame<'static>, FrameError>)
    ensures
        r is Ok <==> decode_error(buf@) is None,
        r matches Err(e) ==> decode_error(buf@) == Some(e),
        r matches Ok(d) ==> decoded_frame(d, buf@),
{
    validate(buf)?;
    let serial = serial(buf)?;
    let timestamp = timestamp(buf)?;
    let table = fields();
    proof {
        assert forall|i: int| 0 <= i < table@.len() implies (#[trigger] table@[i]).canonical()
            && table@[i].offset + RAW_WIDTH <= buf@.len() by {
            assert(matches_entry(table@[i], registry()[i]));
        }
    }
    let measurements = match measurements(table.as_slice(), buf) {
        Ok(ms) => ms,
        Err(e) => return Err(e),
    };
    Ok(DecodedFrame { serial, timestamp, measurements })
}

/// Storing any raw value at the offset of any registry field keeps a frame as
/// valid as it was, and decoding the result gives back that raw value and the
/// physical value `r * scale + bias` of the field.
pub proof fn lemma_encoded_field_decodes(b: Seq<u8>, i: int, r: u16, d: DecodedFrame)
    requires
        b.len() == MAGIC_LENGTH,
        0 <= i < registry().len(),
        decoded_frame(d, with_raw(b, registry()[i].1 as int, r)),
    ensures
        decode_error(with_raw(b, registry()[i].1 as int, r)) == decode_error(b),
        d.measurements@[i].raw == r,
        d.measurements@[i].physical == r * scale_of(registry()[i].0) + bias_of(registry()[i].0),
{
    let off = registry()[i].1 as int;
    let b2 = with_raw(b, off, r);
    crate::registry::lemma_registry_offsets_in_frame();
    assert(off >= 70);
    assert forall|k: int| SERIAL_START <= k < SERIAL_END implies b2[k] == b[k] by {}
    assert(serial_valid(b2) == serial_valid(b));
    assert(timestamp_of(b2) == timestamp_of(b));
    let m = d.measurements@[i];
    assert(matches_entry(m.field, registry()[i]));
    assert(raw_at(b2, off) == r) by (nonlinear_arith)
        requires
            b2[off] == (r / 256) as u8,
            b2[off + 1] == (r % 256) as u8,
            raw_at(b2, off) == b2[off] * 256 + b2[off + 1],
    ;
}

/// A frame of the right length and first byte, with a printable serial number
/// and a real timestamp, decodes whatever its other bytes hold, into exactly
/// one measurement per registry field, in registry order.
pub proof fn lemma_any_payload_decodes(b: Seq<u8>, d: DecodedFrame)
    requires
        b.len() == MAGIC_LENGTH,
        b[0] == MAGIC_HEADER,
        serial_valid(b),
        timestamp_valid(timestamp_of(b)),
    ensures
        decode_error(b) is None,
        decoded_frame(d, b) ==> {
            &&& d.measurements@.len() == registry().len()
            &&& forall|i: int|
                0 <= i < registry().len() ==> {
                    &&& (#[trigger] d.measurements@[i]).field.offset == registry()[i].1
                    &&& d.measurements@[i].field.id@ == registry()[i].4
                }
        },
{
    if decoded_frame(d, b) {
        assert forall|i: int| 0 <= i < registry().len() implies {
            &&& (#[trigger] d.measurements@[i]).field.offset == registry()[i].1
            &&& d.measurements@[i].field.id@ == registry()[i].4
        } by {
            assert(matches_entry(d.measurements@[i].field, registry()[i]));
        }
    }
}

} // verus!
