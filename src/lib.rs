//! Flight-phase and pyrotechnic actuation core of a model-rocket engine
//! controller: a legality-gated transition sequencer, the pyro actuation
//! state machine, the bounded event bus and the two orchestration handlers.

pub mod event;
pub mod handlers;
pub mod phase;
pub mod pin;
pub mod pyro;
pub mod state;
