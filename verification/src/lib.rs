//! Marshalling layer of a binding to a native support-vector-machine engine.
//!
//! The engine itself (training, kernels, prediction) is native code that the
//! surrounding application links and calls.  This library owns everything the
//! binding has to get right before and after such a call: the sparse feature
//! vector encoding, the conversion between the variant-based parameter set
//! and the engine's flat parameter record, the sizing of output buffers, and
//! the bookkeeping a model handle needs to stay sound.

pub mod datavec;
pub mod double;
pub mod error;
pub mod foreign;
pub mod model;
pub mod node;
pub mod normal_form;
pub mod param;
pub mod prob;
pub mod sort;
pub mod vecs;

pub use crate::datavec::DataVec;
pub use crate::double::Double;
pub use crate::error::SvmError;
pub use crate::foreign::{CSvmParameter, KernelType, SvmType};
pub use crate::model::SvmModel;
pub use crate::node::SvmNode;
pub use crate::param::{KernelParam, SvmParameter, SvmTypeParam, Weight};
pub use crate::prob::SvmProblem;
