//! Control logic of the P4X-EYE camera: switch debouncing, the rotary
//! quadrature decoder, the live-view overlay state machine, the main loop's
//! input decisions and the boot animation schedule. Hardware access stays
//! with the caller, which hands sampled pin levels and monotonic-clock
//! timestamps to these functions.
pub mod boot_animation;
pub mod buttons;
pub mod control;
pub mod debounce;
pub mod live_view;
pub mod rotary;
