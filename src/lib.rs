//! Subscription multiplexing for one persistent event connection: canonical
//! topics for subscription descriptors, the registry of local subscribers, and
//! the routing of inbound events to exactly the subscribers of their topic.
mod error;
mod message;
mod registry;
mod subscription;

pub use error::Error;
pub use message::{get_identifier, identifier_of, is_event_text, Message};
pub use registry::{
    ids_under, lemma_delivery_exact, lemma_ids_under_ascending, lemma_ids_under_contains,
    lemma_ids_under_nonempty,
    lemma_issued_ids_below, Registration, Registry,
};
pub use subscription::{
    address_json_text, address_text, control_frame, debug_str_of, descriptor_json, hex_digit,
    json_escape, json_escaped, json_string_of, lemma_account_topic, lemma_descriptor_opens,
    ping_frame, string_member, subscribe_frame, topic, topic_of, type_member, unsubscribe_frame,
    user_member, Subscription,
};
