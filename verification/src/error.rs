use vstd::prelude::*;

verus! {

/// Errors raised by this configuration layer.
#[derive(Clone, Copy, Debug, PartialEq, Eq, Structural)]
pub enum SensorError {
    /// A raw (masked) register value does not correspond to any documented
    /// variant of the field being decoded.
    InvalidDiscriminant,
}

} // verus!
