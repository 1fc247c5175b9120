pub mod cipher;
pub mod job;
pub mod keys;
pub mod paths;
