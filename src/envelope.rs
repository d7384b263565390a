//! What a subscriber hands to its callback for one inbound message.

use vstd::prelude::*;
use crate::descriptor::DataTypeInfo;

verus! {

/// One received message: where and when it came from, how it was encoded,
/// and the decoded payload.
#[derive(Debug, Clone)]
pub struct Received<M> {
    pub topic_name: String,
    pub encoding: String,
    pub message_type: String,
    pub timestamp: i64,
    pub clock: i64,
    pub payload: M,
}

/// Builds the envelope for an inbound message from what the transport
/// reported and what the codec decoded. A message that did not decode is
/// dropped: no envelope, and so no callback.
pub fn envelope<M>(
    topic_name: &str,
    observed: &DataTypeInfo,
    timestamp: i64,
    clock: i64,
    decoded: Option<M>,
) -> (r: Option<Received<M>>)
    ensures
        decoded is None <==> r is None,
        r matches Some(e) ==> {
            &&& e.topic_name@ == topic_name@
            &&& e.encoding@ == observed.encoding@
            &&& e.message_type@ == observed.message_type@
            &&& e.timestamp == timestamp
            &&& e.clock == clock
            &&& decoded == Some(e.payload)
        },
{
    match decoded {
        Some(payload) => Some(
            Received {
                topic_name: topic_name.to_string(),
                encoding: observed.encoding.as_str().to_string(),
                message_type: observed.message_type.as_str().to_string(),
                timestamp,
                clock,
                payload,
            },
        ),
        None => None,
    }
}

} // verus!
