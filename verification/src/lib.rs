//! Headless, verified core of the MTK user-interface toolkit: text editing state,
//! software pixel buffers, view branching, keyed reconciliation planning and
//! interaction state machines.
pub mod colors;
pub mod ui;
