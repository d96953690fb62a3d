//! The noise-suppression model behind the engine.
//!
//! The inference implementation is an outside component (the `df` crate)
//! and is treated as an opaque, stateful unit: once built, it fixes a
//! sample rate and a hop size, and its recurrent state evolves on every
//! processed hop. One `df::DFState` carries the state of one channel, so
//! an engine over `channels` channels owns `channels` of them. The
//! floating-point inference call itself (`DFState::process_frame`) runs
//! outside this crate, on buffers whose shape this crate's contracts fix.

use vstd::prelude::*;

use df::DFState;

verus! {

/// `df::DFState`: the recurrent, single-channel processing state of the
/// noise-suppression model. Opaque here; only the outside crate reads or
/// writes its contents.
#[verifier::external_type_specification]
#[verifier::external_body]
pub struct ExDFState(DFState);

/// The sample rate the model's default configuration fixes.
pub const DEFAULT_SAMPLE_RATE: usize = 48000;

/// The hop size (samples per channel per call) the model's default
/// configuration fixes.
pub const DEFAULT_HOP_SIZE: usize = 480;

/// Relies on `df::DFState::default`: a fresh recurrent state for the
/// model's default configuration, whose sample rate (`sr`) the crate's
/// source fixes at 48000 and whose hop size (`frame_size`) it fixes
/// at 480. The returned pair of integers reads those two fields back.
#[verifier::external_body]
fn fresh_default_state() -> (r: (DFState, usize, usize))
    ensures
        r.1 == DEFAULT_SAMPLE_RATE,
        r.2 == DEFAULT_HOP_SIZE,
{
    let state = DFState::default();
    let sample_rate = state.sr;
    let hop_size = state.frame_size;
    (state, sample_rate, hop_size)
}

/// Builds the default model for `channels` channels: one fresh recurrent
/// state per channel, plus the sample rate and hop size read from the
/// built model.
pub fn default_model(channels: usize) -> (r: (Vec<DFState>, usize, usize))
    ensures
        r.0.len() == channels,
        r.1 == DEFAULT_SAMPLE_RATE,
        r.2 == DEFAULT_HOP_SIZE,
{
    let (first, sample_rate, hop_size) = fresh_default_state();
    let mut states: Vec<DFState> = Vec::new();
    if channels > 0 {
        states.push(first);
    }
    while states.len() < channels
        invariant
            states.len() <= channels,
        decreases channels - states.len(),
    {
        let (state, _, _) = fresh_default_state();
        states.push(state);
    }
    (states, sample_rate, hop_size)
}

} // verus!
