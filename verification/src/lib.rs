//! A small mathematical vector library over double-precision components.
//!
//! Components are carried as their IEEE-754 bit patterns (`u64`), the one
//! form of a double that admits exact reasoning.  Everything that is decided
//! by the bit patterns alone — construction, sizes, indexing, element-wise
//! comparison plumbing, the boolean reductions, and closeness to zero — is
//! implemented and verified here.  Operations whose outcome depends on
//! floating-point arithmetic (general tolerance comparison, sums and
//! products) take the scalar step as a caller-supplied strategy function,
//! and the library verifies every structural claim around it: sizes, error
//! conditions, and which pair of components each step was applied to.

pub mod mathicore;
pub mod vector;
