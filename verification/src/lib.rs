pub mod errors;
pub mod marshal;
pub mod tpm2b;
pub mod types;
pub mod structures;
pub mod algo;
pub mod crypto;
pub mod session;
pub mod auth_area;
pub mod tpm;
pub mod object;
