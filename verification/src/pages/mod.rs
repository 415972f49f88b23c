//! What the request handlers decide, once their input has been read.

pub mod home;
pub mod login;
