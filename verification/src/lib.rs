pub mod config;
pub mod srun;
