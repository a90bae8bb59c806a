//! Verified core of the Nephila agent runtime: the dashboard's state
//! machines and the text it shows, the session pane's line editor, the
//! event store's sequencing, subscription, snapshot and retention rules,
//! the decoding of stored rows, and the lagged-subscription retry policy.

pub mod focus;
pub mod hotkey;
pub mod metrics;
pub mod retry;
pub mod text;
pub mod format;
pub mod lines;
pub mod input;
pub mod log_buffer;
pub mod ids;
pub mod modal;
pub mod modal_view;
pub mod sequencer;
pub mod store_policy;
pub mod session;
pub mod tree;
pub mod paths;
pub mod goals;
pub mod blob;
pub mod agent;
pub mod agent_record;
pub mod json;
pub mod interrupt_record;
pub mod event_record;
pub mod checkpoint_record;
pub mod span_record;
pub mod subscription;
pub mod objectives;
pub mod dashboard;
pub mod keys;
pub mod notices;
pub mod event_log;
pub mod layout;
