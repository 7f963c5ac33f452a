//! The dining room: `hosting` seats the guests, `serving` waits on them.

pub mod hosting;
pub mod serving;
