use vstd::prelude::*;

verus! {

/// Incoming bytes received for example over serial, a BLE receiver, or a
/// replay. Chunks carry no frame alignment: a single frame may span many
/// chunks and a single chunk may contain zero, one, or several frames.
#[derive(Debug)]
pub struct Bytes(pub Vec<u8>);

impl View for Bytes {
    type V = Seq<u8>;

    open spec fn view(&self) -> Seq<u8> {
        self.0@
    }
}

/// A frame of bytes as emitted by the frame parser: it begins with the start
/// delimiter (0xAA), ends with the end delimiter (0x99), and has had the
/// wire-level byte-stuffing reverted.
#[derive(Debug, Clone, PartialEq, Eq)]
pub struct Frame(pub Vec<u8>);

impl View for Frame {
    type V = Seq<u8>;

    open spec fn view(&self) -> Seq<u8> {
        self.0@
    }
}

} // verus!
