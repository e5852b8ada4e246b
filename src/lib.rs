//! A worker node for a volunteer computing coordinator: checksum-gated
//! downloads, platform detection, project assembly, assignment execution
//! and the polling loop, each as verified decisions over plain values.
pub mod assignment;
pub mod checksum;
pub mod coordinator;
pub mod download;
pub mod platform;
pub mod project;
pub mod text;
pub mod worker;
