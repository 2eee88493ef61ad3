//! A verified core for a small video upload and streaming service.
//!
//! The library holds the logic of the service: an in-memory blob store
//! keyed by name, the decision logic of the three HTTP handlers (front
//! page, video download, multipart upload), the routing and CORS
//! decisions, and a cursor that hands a stored blob out in chunks so a
//! caller can stream it without materialising a second copy.
//!
//! All I/O — the TCP listener, the HTTP framing, the multipart wire
//! format — lives outside the library; callers hand in plain values
//! (names, byte buffers, parsed fields) and get plain values back.

pub mod store;
pub mod http;
pub mod page;
pub mod stream;
pub mod laws;
