//! Control protocol for the DG-LAB Coyote 3: frame encoding and decoding,
//! and the bookkeeping of the mirrored device state.

pub mod coyote3;
pub mod state;
pub mod stereo;

pub use state::StateSignal;
pub use stereo::Stereo;
