//! The ingestion contract that the event store offers to its front end:
//! which events are recorded, and what the producer is told.

use vstd::prelude::*;
use vstd::string::StringExecFns;
use crate::db::{readable, row_of, Database, BAD_ATTACHMENTS};
use crate::error::AgentError;
use crate::event::{
    attachment_list, is_category, is_severity, is_source_type, json_document, opt_text, texts,
    validate_category, validate_severity, validate_source_type, Event, IncomingEvent,
};

verus! {

/// An event that was not recorded, and why.
#[derive(Debug, Clone)]
pub struct RejectedEvent {
    pub event_id: Option<String>,
    pub reason: String,
}

pub struct RejectedView {
    pub event_id: Option<Seq<char>>,
    pub reason: Seq<char>,
}

impl View for RejectedEvent {
    type V = RejectedView;

    open spec fn view(&self) -> RejectedView {
        RejectedView { event_id: opt_text(self.event_id), reason: self.reason@ }
    }
}

/// What the producer is told: the identifiers of the events that were
/// recorded, and a reason for each one that was not.
#[derive(Debug, Clone)]
pub struct IngestResponse {
    pub accepted: Vec<String>,
    pub rejected: Vec<RejectedEvent>,
}

pub struct ResponseView {
    pub accepted: Seq<Seq<char>>,
    pub rejected: Seq<RejectedView>,
}

impl View for IngestResponse {
    type V = ResponseView;

    open spec fn view(&self) -> ResponseView {
        ResponseView {
            accepted: texts(self.accepted@),
            rejected: rejections(self.rejected@),
        }
    }
}

/// Whether an event names a recognised category, source type and severity.
pub open spec fn acceptable(e: IncomingEvent) -> bool {
    is_category(e.event.category@) && is_source_type(e.source.source_type@) && is_severity(
        e.event.severity@,
    )
}

/// Whether the structured parts of an event can be read: the payload is
/// JSON text, and the attachments, where there are any, are a list of
/// attachment records.
pub open spec fn payload_readable(e: IncomingEvent) -> bool {
    json_document(e.event.data@) && (opt_text(e.attachments) matches Some(a) ==> attachment_list(a)
        is Some)
}

/// Whether the structured parts of every event of a list can be read.
pub open spec fn all_payloads_readable(events: Seq<IncomingEvent>) -> bool {
    forall|k: int| 0 <= k < events.len() ==> payload_readable(#[trigger] events[k])
}

/// Why an event is not acceptable: the first of its category, source type
/// and severity that is not recognised.
pub open spec fn objection(e: IncomingEvent) -> Seq<char> {
    if !is_category(e.event.category@) {
        "unknown category: "@ + e.event.category@
    } else if !is_source_type(e.source.source_type@) {
        "unknown source type: "@ + e.source.source_type@
    } else {
        "unknown severity: "@ + e.event.severity@
    }
}

/// Checks an event against the recognised categories, source types and
/// severities.
pub fn validate(incoming: &IncomingEvent) -> (checked: Result<(), AgentError>)
    ensures
        checked is Ok <==> acceptable(*incoming),
        checked matches Err(e) ==> e matches AgentError::InvalidEvent(reason) && reason@
            == objection(*incoming),
{
    if !validate_category(incoming.event.category.as_str()) {
        Err(
            AgentError::InvalidEvent(
                String::from_str("unknown category: ").concat(incoming.event.category.as_str()),
            ),
        )
    } else if !validate_source_type(incoming.source.source_type.as_str()) {
        Err(
            AgentError::InvalidEvent(
                String::from_str("unknown source type: ").concat(
                    incoming.source.source_type.as_str(),
                ),
            ),
        )
    } else if !validate_severity(incoming.event.severity.as_str()) {
        Err(
            AgentError::InvalidEvent(
                String::from_str("unknown severity: ").concat(incoming.event.severity.as_str()),
            ),
        )
    } else {
        Ok(())
    }
}

/// The rejection that reports `error` for the event `event_id`.
pub fn rejection(event_id: Option<String>, error: &AgentError) -> (rejected: RejectedEvent)
    ensures
        rejected.event_id == event_id,
        error.label().is_prefix_of(rejected.reason@),
        error.told() matches Some(reason) ==> rejected.reason@ == error.label() + reason,
{
    RejectedEvent { event_id, reason: error.message() }
}

/// What the producer of one event is told once the store has answered: the
/// event's identifier where it was recorded, the store's reason where not.
pub fn single_response(event_id: String, stored: Result<(), AgentError>) -> (response:
    IngestResponse)
    ensures
        stored is Ok ==> response.accepted@ == seq![event_id] && response.rejected@.len() == 0,
        stored matches Err(e) ==> {
            &&& response.accepted@.len() == 0
            &&& response.rejected@.len() == 1
            &&& response.rejected@[0].event_id == Some(event_id)
            &&& e.label().is_prefix_of(response.rejected@[0].reason@)
            &&& e.told() matches Some(reason) ==> response.rejected@[0].reason@ == e.label()
                + reason
        },
{
    match stored {
        Ok(()) => {
            let mut accepted: Vec<String> = Vec::new();
            accepted.push(event_id);
            let response = IngestResponse { accepted, rejected: Vec::new() };
            proof {
                assert(response.accepted@ =~= seq![event_id]);
            }
            response
        },
        Err(e) => {
            let mut rejected: Vec<RejectedEvent> = Vec::new();
            rejected.push(rejection(Some(event_id), &e));
            IngestResponse { accepted: Vec::new(), rejected }
        },
    }
}

/// Ingest a single event. An event that is not acceptable is rejected with
/// the objection and the store is not touched; any other is completed and
/// written, and is accepted once the store has it. An acceptable event
/// whose payload or attachments cannot be read is rejected for that. A
/// rejection names the event by the identifier that the producer gave.
pub fn ingest_event(db: &mut Database, incoming: IncomingEvent) -> (response: IngestResponse)
    ensures
        response.accepted@.len() + response.rejected@.len() == 1,
        !acceptable(incoming) ==> response.rejected@.len() == 1 && response.rejected@[0]@ == (
        RejectedView {
            event_id: opt_text(incoming.event_id),
            reason: "Invalid event: "@ + objection(incoming),
        }),
        response.accepted@.len() == 1 ==> acceptable(incoming) && payload_readable(incoming) && (
        incoming.event_id matches Some(id) ==> response.accepted@[0]@ == id@),
        response.rejected@.len() == 1 && acceptable(incoming) ==> {
            let reason = response.rejected@[0].reason@;
            &&& response.rejected@[0].event_id is Some
            &&& incoming.event_id matches Some(id) ==> opt_text(response.rejected@[0].event_id)
                == Some(id@)
            &&& payload_readable(incoming) ==> "Database error: "@.is_prefix_of(reason)
        },
        acceptable(incoming) && !payload_readable(incoming) ==> {
            let reason = response.rejected@[0].reason@;
            &&& response.accepted@.len() == 0
            &&& response.rejected@.len() == 1
            &&& !json_document(incoming.event.data@) ==> "JSON error: "@.is_prefix_of(reason)
            &&& json_document(incoming.event.data@) ==> reason == "Invalid event: "@
                + BAD_ATTACHMENTS@
        },
{
    match validate(&incoming) {
        Ok(()) => {},
        Err(e) => {
            let mut rejected: Vec<RejectedEvent> = Vec::new();
            rejected.push(rejection(incoming.event_id, &e));
            return IngestResponse { accepted: Vec::new(), rejected };
        },
    }
    let event = incoming.into_event();
    proof {
        assert(readable(row_of(event@)) == payload_readable(incoming));
    }
    let stored = db.insert_event(&event);
    single_response(event.event_id, stored)
}

/// The rejections of the events of a batch that are not acceptable, in the
/// order of the batch.
pub open spec fn objections(batch: Seq<IncomingEvent>) -> Seq<RejectedView>
    decreases batch.len(),
{
    if batch.len() == 0 {
        Seq::empty()
    } else {
        let earlier = objections(batch.drop_last());
        let e = batch.last();
        if acceptable(e) {
            earlier
        } else {
            earlier.push(
                RejectedView {
                    event_id: opt_text(e.event_id),
                    reason: "Invalid event: "@ + objection(e),
                },
            )
        }
    }
}

/// The events of a batch that are acceptable, in the order of the batch.
pub open spec fn acceptable_ones(batch: Seq<IncomingEvent>) -> Seq<IncomingEvent>
    decreases batch.len(),
{
    if batch.len() == 0 {
        Seq::empty()
    } else {
        let earlier = acceptable_ones(batch.drop_last());
        if acceptable(batch.last()) {
            earlier.push(batch.last())
        } else {
            earlier
        }
    }
}

/// Every event of a batch is either acceptable or objected to.
pub proof fn lemma_every_event_is_judged(batch: Seq<IncomingEvent>)
    ensures
        acceptable_ones(batch).len() + objections(batch).len() == batch.len(),
    decreases batch.len(),
{
    if batch.len() > 0 {
        lemma_every_event_is_judged(batch.drop_last());
    }
}

/// The views of a list of rejections.
pub open spec fn rejections(list: Seq<RejectedEvent>) -> Seq<RejectedView> {
    list.map_values(|r: RejectedEvent| r@)
}

/// What the producer of a batch is told once the store has answered for its
/// acceptable events. Where they were written, each of them is accepted;
/// an event that the store already held counts as recorded. Where they were
/// not, each of them is rejected with the store's reason. The objections to
/// the other events of the batch come first among the rejections.
pub fn batch_response(
    event_ids: Vec<String>,
    stored: Result<usize, AgentError>,
    objected: Vec<RejectedEvent>,
) -> (response: IngestResponse)
    ensures
        stored is Ok ==> response.accepted@ == event_ids@ && response.rejected@ == objected@,
        stored matches Err(e) ==> {
            &&& response.accepted@.len() == 0
            &&& response.rejected@.len() == objected@.len() + event_ids@.len()
            &&& forall|k: int|
                0 <= k < objected@.len() ==> #[trigger] response.rejected@[k] == objected@[k]
            &&& forall|k: int|
                0 <= k < event_ids@.len() ==> {
                    let r = #[trigger] response.rejected@[objected@.len() + k];
                    &&& r.event_id == Some(event_ids@[k])
                    &&& e.label().is_prefix_of(r.reason@)
                    &&& e.told() matches Some(reason) ==> r.reason@ == e.label() + reason
                }
        },
{
    match stored {
        Ok(_) => IngestResponse { accepted: event_ids, rejected: objected },
        Err(e) => {
            let mut rejected = objected;
            let mut i: usize = 0;
            while i < event_ids.len()
                invariant
                    i <= event_ids@.len(),
                    rejected@.len() == objected@.len() + i,
                    forall|k: int|
                        0 <= k < objected@.len() ==> #[trigger] rejected@[k] == objected@[k],
                    forall|k: int|
                        0 <= k < i ==> {
                            let r = #[trigger] rejected@[objected@.len() + k];
                            &&& r.event_id == Some(event_ids@[k])
                            &&& e.label().is_prefix_of(r.reason@)
                            &&& e.told() matches Some(reason) ==> r.reason@ == e.label() + reason
                        },
                decreases event_ids@.len() - i,
            {
                rejected.push(rejection(Some(event_ids[i].clone()), &e));
                i = i + 1;
            }
            IngestResponse { accepted: Vec::new(), rejected }
        },
    }
}

/// Ingest a batch of events. Each event that is not acceptable is rejected
/// with its objection. The acceptable events are completed and written in
/// one transaction: all of them are accepted, or each of them is rejected
/// with the store's reason; none is accepted where the payload or the
/// attachments of one of them cannot be read. So every event of the batch
/// is answered for. The store is not touched where no event is acceptable.
pub fn ingest_batch(db: &mut Database, incoming: Vec<IncomingEvent>) -> (response:
    IngestResponse)
    ensures
        response.accepted@.len() + response.rejected@.len() == incoming@.len(),
        objections(incoming@).is_prefix_of(response@.rejected),
        acceptable_ones(incoming@).len() == 0 ==> response@ == (ResponseView {
            accepted: Seq::empty(),
            rejected: objections(incoming@),
        }),
        response.accepted@.len() > 0 ==> {
            &&& response.accepted@.len() == acceptable_ones(incoming@).len()
            &&& response@.rejected == objections(incoming@)
            &&& forall|k: int|
                0 <= k < response.accepted@.len() ==> ((#[trigger] acceptable_ones(
                    incoming@,
                )[k]).event_id matches Some(id) ==> response.accepted@[k]@ == id@)
        },
        !all_payloads_readable(acceptable_ones(incoming@)) ==> response.accepted@.len() == 0,
        response.accepted@.len() == 0 ==> forall|k: int|
            0 <= k < acceptable_ones(incoming@).len() ==> {
                let r = #[trigger] response.rejected@[objections(incoming@).len() + k];
                &&& r.event_id matches Some(given)
                &&& acceptable_ones(incoming@)[k].event_id matches Some(id) ==> given@ == id@
                &&& if all_payloads_readable(acceptable_ones(incoming@)) {
                    "Database error: "@.is_prefix_of(r.reason@)
                } else {
                    "JSON error: "@.is_prefix_of(r.reason@) || "Invalid event: "@.is_prefix_of(
                        r.reason@,
                    )
                }
            },
{
    let ghost batch = incoming@;
    let mut events: Vec<Event> = Vec::new();
    let mut event_ids: Vec<String> = Vec::new();
    let mut objected: Vec<RejectedEvent> = Vec::new();
    for item in it: incoming
        invariant
            it.seq() == batch,
            rejections(objected@) == objections(batch.take(it.index() as int)),
            events@.len() == event_ids@.len(),
            event_ids@.len() == acceptable_ones(batch.take(it.index() as int)).len(),
            forall|k: int|
                0 <= k < event_ids@.len() ==> ((#[trigger] acceptable_ones(
                    batch.take(it.index() as int),
                )[k]).event_id matches Some(id) ==> event_ids@[k]@ == id@),
            forall|k: int|
                0 <= k < events@.len() ==> readable(row_of((#[trigger] events@[k])@))
                    == payload_readable(acceptable_ones(batch.take(it.index() as int))[k]),
    {
        proof {
            let i = it.index() as int;
            assert(batch.take(i + 1).drop_last() == batch.take(i));
            assert(batch.take(i + 1).last() == batch[i]);
        }
        let ghost before = objected@;
        match validate(&item) {
            Ok(()) => {
                let event = item.into_event();
                proof {
                    assert(readable(row_of(event@)) == payload_readable(item));
                }
                event_ids.push(event.event_id.clone());
                events.push(event);
            },
            Err(e) => {
                let r = rejection(item.event_id, &e);
                objected.push(r);
                proof {
                    assert(rejections(objected@) == rejections(before).push(r@));
                }
            },
        }
    }
    proof {
        assert(batch.take(batch.len() as int) == batch);
        lemma_every_event_is_judged(batch);
        assert(rejections(objected@).len() == objected@.len());
    }
    if events.len() == 0 {
        let response = IngestResponse { accepted: Vec::new(), rejected: objected };
        proof {
            assert(response@.accepted =~= Seq::empty());
        }
        return response;
    }
    let stored = db.insert_events(events.as_slice());
    proof {
        let good = acceptable_ones(batch);
        if !all_payloads_readable(good) {
            let k = choose|k: int| 0 <= k < good.len() && !payload_readable(#[trigger] good[k]);
            assert(!readable(row_of(events@[k]@)));
            assert(stored is Err);
        } else {
            assert forall|i: int| 0 <= i < events@.len() implies readable(
                row_of(#[trigger] events@[i]@),
            ) by {
                assert(payload_readable(good[i]));
            }
        }
    }
    let response = batch_response(event_ids, stored, objected);
    proof {
        let told = response@.rejected;
        let bad = objections(batch);
        assert(told.len() == response.rejected@.len());
        assert forall|k: int| 0 <= k < bad.len() implies told[k] == bad[k] by {
            assert(response.rejected@[k] == objected@[k]);
            assert(rejections(objected@)[k] == objected@[k]@);
        }
        if stored is Ok {
            assert(told =~= bad);
        }
        assert(told.subrange(0, bad.len() as int) =~= bad);
    }
    response
}

/// The status of a response in which every event was accepted.
pub const STATUS_ACCEPTED: u16 = 202;

/// The status of a response that rejects an event.
pub const STATUS_FAILED: u16 = 500;

/// The HTTP status that goes with a response: accepted where no event was
/// rejected, a server error otherwise.
pub fn response_status(response: &IngestResponse) -> (status: u16)
    ensures
        status == if response.rejected@.len() == 0 {
            STATUS_ACCEPTED
        } else {
            STATUS_FAILED
        },
{
    if response.rejected.len() == 0 {
        STATUS_ACCEPTED
    } else {
        STATUS_FAILED
    }
}

/// The count that a report shows: the count that the store gave, or
/// `fallback` where it could not say.
pub fn count_or(count: Result<i64, AgentError>, fallback: i64) -> (shown: i64)
    ensures
        shown == (match count {
            Ok(n) => n,
            Err(_) => fallback,
        }),
{
    match count {
        Ok(n) => n,
        Err(_) => fallback,
    }
}

} // verus!
