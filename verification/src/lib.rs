//! EraLauncher core: the verified logic of a terminal Minecraft launcher.

pub mod text;
pub mod errors;
pub mod ids;
pub mod servers;
pub mod argus;
pub mod keyed;
pub mod minecraft;
pub mod paths;
pub mod auth;
pub mod instances;
pub mod config;
pub mod modrinth;
pub mod crashes;
pub mod launch;
pub mod digest;
pub mod downloads;
pub mod installer;
pub mod versions;
pub mod worlds;
pub mod launch_steps;
