//! Sonos state management: identities, properties, event decoding and the
//! property store with its watch bookkeeping.

pub mod text;
pub mod viewed;
pub mod ids;
pub mod net;
pub mod speaker;
pub mod property;
pub mod value;
pub mod stamp;
pub mod bag;
pub mod table;
pub mod watch;
pub mod xml;
pub mod escape_laws;
pub mod decoder;
pub mod decoder_laws;
pub mod fanout;
pub mod store;
pub mod error;
pub mod manager;
pub mod laws;
pub mod model;
pub mod cache;
pub mod cache_laws;
pub mod events;
pub mod processor;
pub mod change_stream;
pub mod logging;
pub mod broker;
pub mod init;
pub mod cache_manager;
pub mod reactive_store;
pub mod decoders;
pub mod state_manager;
pub mod pipeline_laws;
pub mod reactive;
pub mod snapshot;
pub mod widget;
pub mod watch_cache;
