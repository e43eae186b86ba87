//! The host-side logic of a GPU bitonic merge sort and of the window that
//! shows it: the pass schedule, the random keys, the greyscale picture of a
//! key buffer, and the decisions of the window's event loop.
pub mod schedule;
pub mod noise;
pub mod picture;
pub mod window;
