//! Runtime core of a wrist-worn activity monitor.
//!
//! The verified layer is the task choreography logic: the button input state
//! machine (debounce, single/double-click, long-press), the feature-window
//! accumulator and classification gate, the render-state event fan-out, and
//! the power/sleep policy. Each task loop's decisions are pure functions of
//! plain values (pin levels, millisecond timestamps, ADC counts); the thread
//! scheduling and hardware register access that drive them live outside this
//! library.

pub mod ai;
pub mod boot;
pub mod config;
pub mod ei;
pub mod events;
pub mod input;
pub mod power;
pub mod sensor;
pub mod ui;
