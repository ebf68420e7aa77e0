//! State core of a small interactive 3D viewer: an orbit camera over a static
//! grid scene, plus the settings that drive its in-app panels (theme, debug
//! overlay, grid size, panel placement).
//!
//! All quantities are fixed-point integers in thousandths (`SCALE` units per
//! whole unit), so every state transition is exact and verified. Rendering,
//! input polling and the trigonometry of the final eye position live outside
//! the library; the library receives plain values (key flags, pointer
//! coordinates, trig samples) and pins down the state that results.

pub mod camera;
pub mod fixed;
pub mod key_mapping;
pub mod settings;
pub mod styles;
