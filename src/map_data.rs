use vstd::prelude::*;

use crate::decompress::{decompress_7z_base64_data, decompressed};
use crate::document::{render_svg, rendered};
use crate::error::MapError;
use crate::geometry::{TracePoint, Viewbox};
use crate::shapes::{MapSubset, Position};
use crate::trace::{are_records, process_trace_points};

verus! {

/// What a base64 trace update decodes to: the records of its decompressed
/// bytes, or the error of the first step that fails.
pub open spec fn extracted(
    value: Seq<char>,
    ts: Seq<TracePoint>,
    r: Result<(), MapError>,
) -> bool {
    match decompressed(value) {
        Err(e) => r == Err::<(), MapError>(e),
        Ok(bytes) => if bytes.len() % 5 != 0 {
            r == Err::<(), MapError>(MapError::MalformedRecord)
        } else {
            r is Ok && are_records(ts, bytes)
        },
    }
}

/// Decompresses a base64 trace update and decodes its records.
pub fn extract_trace_points(value: String) -> (r: Result<Vec<TracePoint>, MapError>)
    ensures
        match r {
            Ok(ts) => extracted(value@, ts@, Ok(())),
            Err(e) => extracted(value@, Seq::empty(), Err(e)),
        },
{
    let bytes = decompress_7z_base64_data(value)?;
    process_trace_points(bytes.as_slice())
}

/// The trace of one map view, merged from successive updates.
pub struct MapData {
    trace_points: Vec<TracePoint>,
}

impl View for MapData {
    type V = Seq<TracePoint>;

    closed spec fn view(&self) -> Seq<TracePoint> {
        self.trace_points@
    }
}

impl MapData {
    /// A map view without trace points.
    pub fn new() -> (m: MapData)
        ensures
            m@ == Seq::<TracePoint>::empty(),
    {
        MapData { trace_points: Vec::new() }
    }

    /// Decodes a base64 trace update and appends its points in record order.
    /// On an error the trace is unchanged.
    pub fn add_trace_points(&mut self, value: String) -> (r: Result<(), MapError>)
        ensures
            final(self)@.len() >= old(self)@.len(),
            final(self)@.subrange(0, old(self)@.len() as int) == old(self)@,
            extracted(
                value@,
                final(self)@.subrange(old(self)@.len() as int, final(self)@.len() as int),
                r,
            ),
            r is Err ==> final(self)@ == old(self)@,
    {
        let points = match extract_trace_points(value) {
            Ok(points) => points,
            Err(e) => {
                assert(self@.subrange(0, self@.len() as int) =~= self@);
                assert(self@.subrange(self@.len() as int, self@.len() as int) =~= Seq::<
                    TracePoint,
                >::empty());
                return Err(e);
            },
        };
        let ghost start = self.trace_points@;
        for i in 0..points.len()
            invariant
                self.trace_points@ == start + points@.subrange(0, i as int),
        {
            self.trace_points.push(points[i]);
            assert(self.trace_points@ =~= start + points@.subrange(0, i + 1));
        }
        assert(self.trace_points@.subrange(0, start.len() as int) =~= start);
        assert(self.trace_points@.subrange(start.len() as int, self.trace_points@.len() as int)
            =~= points@);
        Ok(())
    }

    /// Drops every trace point.
    pub fn clear_trace_points(&mut self)
        ensures
            final(self)@ == Seq::<TracePoint>::empty(),
    {
        self.trace_points.clear();
        assert(self.trace_points@ =~= Seq::<TracePoint>::empty());
    }

    /// Renders the map with the accumulated trace.
    pub fn generate_svg(
        &self,
        viewbox: Viewbox,
        image: &[u8],
        subsets: &Vec<MapSubset>,
        positions: &Vec<Position>,
    ) -> (r: String)
        requires
            viewbox.wf(),
        ensures
            r@ == rendered(viewbox, image@, self@, subsets@, positions@),
    {
        render_svg(viewbox, image, self.trace_points.as_slice(), subsets, positions)
    }
}

} // verus!
