pub mod error;
pub mod packet;
pub mod reply;
pub mod session;
pub mod stats;
