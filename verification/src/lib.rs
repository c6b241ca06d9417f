pub mod error;
pub mod frame;
pub mod peer;
pub mod pump;
pub mod session;
