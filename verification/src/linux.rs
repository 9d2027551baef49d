//! The Linux-facing half of the bootstrap: the startup context the kernel
//! leaves on the initial stack, the auxiliary vector, environment
//! variables, page-size arithmetic, and the runtime's self-relocation
//! pass.

pub mod auxiliary_vector;
pub mod environment_iterator;
pub mod environment_variables;
pub mod page_size;
pub mod relocate;
pub mod rust_start;
pub mod startup;
