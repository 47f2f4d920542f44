//! Minecraft runtime concerns: Java requirements and JVM tuning.

pub mod java;
pub mod optimization;
pub mod manifest;
pub mod arguments;
