use vstd::prelude::*;

use crate::error::MapError;
use crate::geometry::TracePoint;

verus! {

/// Bytes in one trace record.
pub const RECORD_LEN: usize = 5;

/// The signed 16-bit value of two bytes in little-endian order.
pub open spec fn le_i16(lo: u8, hi: u8) -> int {
    let u = hi as int * 256 + lo as int;
    if u >= 32768 {
        u - 65536
    } else {
        u
    }
}

/// The two bytes at `at`, low byte first, as a signed value.
fn read_i16_le(buf: &[u8], at: usize) -> (r: i16)
    requires
        at + 2 <= buf@.len(),
    ensures
        r as int == le_i16(buf@[at as int], buf@[at + 1]),
{
    let lo = buf[at] as u16;
    let hi = buf[at + 1] as u16;
    let u: u16 = hi * 256 + lo;
    if u >= 32768 {
        (u as i32 - 65536) as i16
    } else {
        u as i16
    }
}

/// `t` is the record at index `k` of `b`: x and y as little-endian signed
/// 16-bit values, and connected where the high bit of the flags byte is clear.
pub open spec fn is_record(t: TracePoint, b: Seq<u8>, k: int) -> bool {
    &&& t.x as int == le_i16(b[5 * k], b[5 * k + 1])
    &&& t.y as int == le_i16(b[5 * k + 2], b[5 * k + 3])
    &&& t.connected == (b[5 * k + 4] < 128)
}

/// `ts` are the records of `b`, one per five bytes, in order.
pub open spec fn are_records(ts: Seq<TracePoint>, b: Seq<u8>) -> bool {
    &&& ts.len() * 5 == b.len()
    &&& forall|k: int| 0 <= k < ts.len() ==> #[trigger] is_record(ts[k], b, k)
}

/// Decodes trace records: five bytes each, a trailing partial record fails.
pub fn process_trace_points(bytes: &[u8]) -> (r: Result<Vec<TracePoint>, MapError>)
    ensures
        bytes@.len() % 5 != 0 ==> r == Err::<Vec<TracePoint>, MapError>(MapError::MalformedRecord),
        bytes@.len() % 5 == 0 ==> r is Ok && are_records(r->Ok_0@, bytes@),
{
    if bytes.len() % RECORD_LEN != 0 {
        return Err(MapError::MalformedRecord);
    }
    let mut points: Vec<TracePoint> = Vec::new();
    let mut at: usize = 0;
    while at < bytes.len()
        invariant
            bytes@.len() % 5 == 0,
            at % 5 == 0,
            at <= bytes@.len(),
            points@.len() * 5 == at,
            forall|k: int| 0 <= k < points@.len() ==> #[trigger] is_record(points@[k], bytes@, k),
        decreases bytes.len() - at,
    {
        let x = read_i16_le(bytes, at);
        let y = read_i16_le(bytes, at + 2);
        let flags: u8 = bytes[at + 4];
        let connected = (flags >> 7u8) & 1u8 == 0;
        assert(((flags >> 7u8) & 1u8 == 0) == (flags < 128)) by (bit_vector);
        let ghost k = points@.len() as int;
        points.push(TracePoint { x, y, connected });
        assert(is_record(points@[k], bytes@, k));
        at = at + RECORD_LEN;
    }
    Ok(points)
}

} // verus!
