//! The packets of single plugins.
pub mod digitizer;
pub mod sftp;
