//! A verified coordinator for object-storage request handling: chunked
//! multipart-upload planning, part-authorization sequencing, completion-manifest
//! validation, and the small pure cores of the presign, list, and
//! get-and-decompress operations. Network calls to the storage backend are left
//! to the surrounding binary; this crate decides what to ask the backend and
//! validates everything the client submits.

pub mod decompress;
pub mod errors;
pub mod manifest;
pub mod passthrough;
pub mod planner;
pub mod session;
