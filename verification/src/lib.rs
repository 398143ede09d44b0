//! A fixed-timestep character locomotion core.
//!
//! The library composes transient and persistent forces (gravity, run, jump,
//! drift, slope-stick, skid) into a single displacement request per tick,
//! tracks whether the avatar is grounded or airborne from a proximity probe
//! result, escalates jump power across rapid consecutive landings, and buffers
//! input presses over a short leniency window.
//!
//! All quantities are fixed-point integers: distances and force components in
//! thousandths of a world unit, durations in microseconds, angles in
//! thousandths of a degree.  The collision resolver, the camera, the rendering
//! layer and the raw key-to-action mapping are external collaborators: callers
//! hand in already-resolved probe results, camera-space basis vectors and
//! logical action edges, and take the combined displacement vector back.

pub mod countdown;
pub mod force;
pub mod input;
pub mod jumper;
pub mod laws;
pub mod ledger;
pub mod motion;
pub mod pipeline;
pub mod sensor;
pub mod speed;
pub mod vec3;
