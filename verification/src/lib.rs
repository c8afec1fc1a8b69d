//! Decoder library for the TBS battery-monitor / charger wire protocol.
//!
//! The protocol delivers `0xAA ... 0x99` delimited, byte-stuffed frames over
//! an unreliable stream transport. This crate provides the two stages of the
//! decoding pipeline:
//!
//! * [`frameparser::FrameParser`] locates delimited frames inside an
//!   arbitrarily chunked byte stream, reassembles them across chunk
//!   boundaries and reverses the wire-level byte-stuffing;
//! * [`decoder::Decoder`] validates a frame's checksum and parses it into one
//!   of the typed protocol messages of [`protocol::TbsPg`].
//!
//! Every executable function is verified against a specification written
//! over mathematical byte sequences.

/// Decoder decodes frames into protocol types.
pub mod decoder;
/// FrameParser identifies frames in a stream of bytes.
pub mod frameparser;
/// Protocol defines the TBS protocol and decoded information for frame types
/// that are understood.
pub mod protocol;
/// Basic types for bytes and frames.
pub mod types;
