//! Structural core of a layered feedforward network: activation selection by
//! name, the layer-boundary index, the per-layer walks of the forward and
//! backward passes, and the order in which training examples are visited.
pub mod activation;
pub mod error;
pub mod pass;
pub mod schedule;
pub mod topology;
pub mod training;
