//! Core logic of a horizontally scrollable, zoomable musical timeline widget.
//!
//! The crate covers the tick/pixel coordinate transform, the step-subdivision
//! generator that drives the ruler and grid, the scroll/zoom viewport
//! controller, the per-track selection drag state machine, the playhead
//! bookkeeping, and the track layout engine.  Rendering and raw input live in
//! the host application; the host hands plain values (pointer coordinates,
//! scroll deltas, elapsed time) into these functions and draws from the values
//! they return.
//!
//! All continuous quantities (ticks, zoom factors) are carried in fixed-point
//! integer units so that every computation here is exact: tick positions in
//! thousandths of a tick ([`types::TICK_UNIT`]), zoom levels in thousandths of
//! the neutral zoom ([`types::ZOOM_UNIT`]), pixel positions in whole points.

pub mod grid;
pub mod host;
pub mod layout;
pub mod playhead;
pub mod ruler;
pub mod selection;
pub mod time;
pub mod types;
pub mod viewport;
