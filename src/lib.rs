//! Selection, memoization and calling contract of GEMM kernels.
//!
//! A request names a shape, strides and datatypes (`descriptor`) and options
//! (`flags`). On a machine of a given capability tier (`tier`) the request's
//! key is resolved once (`cache`, `resolve`): the code generator is asked for
//! tier-specific variants, newest first, and the portable routine stands in
//! where no variant is accepted (`dispatch`). `invoke` states what a call of
//! the resulting kernel needs.

pub mod cache;
pub mod descriptor;
pub mod dispatch;
pub mod flags;
pub mod invoke;
pub mod resolve;
pub mod tier;
