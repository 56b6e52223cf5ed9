//! Stream selection and the download-and-mux job for a remote video.
pub mod catalog;
pub mod job;
pub mod quality;
pub mod source;
