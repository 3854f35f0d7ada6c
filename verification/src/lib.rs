//! The feed-forward block of a decoder-only transformer, with the model
//! configuration and the weight binding that go with it.
//!
//! A [`WeightStore`] holds named tensors. A [`Builder`] is a path into the
//! store; [`MLP::from_builder`] binds the block's two projections from the
//! names under that path, and [`MLP::forward`] maps an activation tensor
//! through the up-projection, the gated nonlinearity and the down-projection.
//!
//! The element type of a tensor is any [`Scalar`]. Every function states its
//! result exactly, over the scalar's own operations.
pub mod builder;
pub mod config;
pub mod error;
pub mod functional;
pub mod linear;
pub mod mlp;
pub mod scalar;
pub mod store;
pub mod tensor;

pub use builder::Builder;
pub use config::Config;
pub use error::{ConfigField, Error, ShapeError};
pub use linear::Linear;
pub use mlp::MLP;
pub use scalar::{Meta, Scalar};
pub use store::WeightStore;
pub use tensor::Tensor;
