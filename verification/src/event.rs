//! The normalized change event, as the ingest pipeline emits it and the
//! publisher consumes it.

use crate::csv::nonempty_segments;
use crate::ejson::{binaries_fit, ejson_of};
use crate::json::{json_text, json_to_string};
use crate::value::{bson_model, BsonValue};
use vstd::prelude::*;

verus! {

/// A cluster time: a point in the replica set's timeline.
pub struct Timestamp {
    /// Seconds since the Unix epoch.
    pub time: u32,
    /// Ordinal within that second.
    pub increment: u32,
}

/// One observed mutation, in the wire shape the aggregation pipeline
/// produces.
pub struct Event {
    /// The collection the change happened in.
    pub collection: String,
    /// The database the change happened in.
    pub db: String,
    /// The changed document's `_id`, stringified.
    pub document_id: String,
    /// The deduplication key: the change's native `_id`, stringified.
    pub event_id: String,
    /// Comma-separated `field::value` fragments for configured namespace
    /// collections; may be empty.
    pub namespaces: String,
    /// The operation record: kind, document payload, reserved fields.
    pub operation: BsonValue,
    /// The change's cluster time.
    pub timestamp: Timestamp,
}

/// The EJSON payload text of an operation record: its encoding, serialized
/// compactly.
pub open spec fn payload_text(op: BsonValue) -> Seq<char> {
    json_text(ejson_of(bson_model(op)))
}

/// An event the publisher can handle: a non-empty document id, and binary
/// payloads small enough to encode.
pub open spec fn event_wf(e: Event) -> bool {
    e.document_id@.len() > 0 && binaries_fit(bson_model(e.operation))
}

impl Event {
    /// The operation record's wire payload.
    pub fn payload(&self) -> (r: String)
        requires
            binaries_fit(bson_model(self.operation)),
        ensures
            r@ == payload_text(self.operation),
    {
        json_to_string(&self.operation.into_ejson())
    }

    /// The diagnostic lines debug mode prints for this event: one for the
    /// collection channel, one for the document channel, then one per
    /// non-empty namespace — where, unlike the wire channel, the line shows
    /// the collection name after the namespace.
    pub fn debug_lines(&self) -> (r: Vec<String>)
        requires
            binaries_fit(bson_model(self.operation)),
        ensures
            r.deep_view().len() == 2 + nonempty_segments(self.namespaces@).len(),
            r.deep_view()[0] == self.db@ + "."@ + self.collection@ + " "@ + payload_text(
                self.operation,
            ),
            r.deep_view()[1] == self.db@ + "."@ + self.collection@ + "::"@ + self.document_id@
                + " "@ + payload_text(self.operation),
            forall|j: int|
                0 <= j < nonempty_segments(self.namespaces@).len() ==> r.deep_view()[2 + j]
                    == self.db@ + "."@ + #[trigger] nonempty_segments(self.namespaces@)[j]
                    + "::"@ + self.collection@ + " "@ + payload_text(self.operation),
    {
        let ejson = self.payload();
        let mut lines: Vec<String> = Vec::new();

        let mut line = self.db.clone();
        line.append(".");
        line.append(self.collection.as_str());
        line.append(" ");
        line.append(ejson.as_str());
        lines.push(line);

        let mut line = self.db.clone();
        line.append(".");
        line.append(self.collection.as_str());
        line.append("::");
        line.append(self.document_id.as_str());
        line.append(" ");
        line.append(ejson.as_str());
        lines.push(line);

        let ghost segs = nonempty_segments(self.namespaces@);
        let parts = crate::csv::split_nonempty(&self.namespaces);
        let mut i: usize = 0;
        while i < parts.len()
            invariant
                segs == nonempty_segments(self.namespaces@),
                parts.deep_view() == segs,
                parts.deep_view().len() == parts@.len(),
                i <= parts@.len(),
                lines.deep_view().len() == 2 + i,
                lines.deep_view()[0] == self.db@ + "."@ + self.collection@ + " "@ + ejson@,
                lines.deep_view()[1] == self.db@ + "."@ + self.collection@ + "::"@
                    + self.document_id@ + " "@ + ejson@,
                forall|j: int|
                    0 <= j < i ==> lines.deep_view()[2 + j] == self.db@ + "."@
                        + #[trigger] segs[j] + "::"@ + self.collection@ + " "@ + ejson@,
                ejson@ == payload_text(self.operation),
            decreases parts@.len() - i,
        {
            proof {
                assert(parts.deep_view()[i as int] == parts@[i as int]@);
            }
            let mut line = self.db.clone();
            line.append(".");
            line.append(parts[i].as_str());
            line.append("::");
            line.append(self.collection.as_str());
            line.append(" ");
            line.append(ejson.as_str());
            lines.push(line);
            i += 1;
        }
        lines
    }
}

} // verus!
