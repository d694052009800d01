//! A small tensor library that records, for every tensor it produces, how the
//! tensor was derived: an immutable, shared computation graph built eagerly
//! while element-wise operations run on dense n-dimensional data.

pub mod array;
pub mod backend;
pub mod error;
pub mod ident;
pub mod laws;
pub mod op;
pub mod shape;
pub mod tensor;
pub mod text;

pub use array::DenseArray;
pub use error::{ArrayError, TensorError};
pub use ident::IdCounter;
pub use op::Operator;
pub use tensor::{Tensor, TensorResult};
