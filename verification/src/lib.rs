//! Generation of package-expression skeletons for the Nix ecosystem, and
//! resolution of the conventional on-disk paths for the generated files.

pub mod counting;
pub mod expression;
pub mod file_path;
