//! A typed builder and parser for Slurm `sbatch` command lines.
//!
//! The crate models the `sbatch` option set as a closed enum, validates every
//! option value, renders options deterministically, and parses Slurm
//! dependency expressions (`after:123+10?afterok:456`) into a structured,
//! canonical representation and back.

pub mod dependency;
pub mod dependency_type;
pub mod job_id;
pub mod name;
mod num;
mod order;
pub mod regex_match;
pub mod sbatch;
pub mod sbatch_dependency;
pub mod sbatch_option;
pub mod sbatch_option_list;
mod text;
pub mod time_delay;
pub mod variable;

pub use dependency::{Dependency, DependencyError, DependencyType, DependencyTypeError};
pub use sbatch::{Sbatch, SbatchError};
pub use sbatch_option::{SbatchOption, SbatchOptionError};
