use vstd::prelude::*;

verus! {

/// The shape a value takes inside a document of either format: the
/// encoding's native unit, a raw byte string, or a text string.
#[derive(Debug, Clone, PartialEq, Eq)]
pub enum Wire<B, S> {
    Unit,
    Bytes(B),
    Text(S),
}

/// A wire shape as the codec reads and writes it.
pub type WireValue = Wire<Vec<u8>, String>;

impl View for Wire<Vec<u8>, String> {
    type V = Wire<Seq<u8>, Seq<char>>;

    open spec fn view(&self) -> Wire<Seq<u8>, Seq<char>> {
        match self {
            Wire::Unit => Wire::Unit,
            Wire::Bytes(b) => Wire::Bytes(b@),
            Wire::Text(s) => Wire::Text(s@),
        }
    }
}

} // verus!
