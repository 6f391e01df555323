pub mod arith16;
pub mod arith8;
pub mod bit_operations;
pub mod calls;
pub mod helpers;
pub mod jumps;
pub mod misc;
pub mod rotate_shift;
pub mod transfer16;
pub mod transfer8;
