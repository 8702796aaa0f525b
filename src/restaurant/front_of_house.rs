//! Where guests are seated and served.
pub mod hosting;
mod serving;
