pub mod api;
pub mod chunk;
pub mod deps;
pub mod handler;
pub mod lines;
pub mod partition;
pub mod pattern;
pub mod router;
pub mod stream_byte_stream_adapter;
pub mod stream_filter;
