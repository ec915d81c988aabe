//! Verified arithmetic and layout rules of a fractal clock whose branches are
//! computed on the GPU: how many vertices each depth of the fractal holds, how
//! large its buffers are, how the compute work is dispatched, how the vertex
//! data is laid out, the order of the tick marks on the dial, the colour-wheel
//! sectors, the local time of day that drives the hands, and the depth
//! controls.

pub mod clock_time;
pub mod controls;
pub mod dial;
pub mod geometry;
pub mod hue;
pub mod layout;
