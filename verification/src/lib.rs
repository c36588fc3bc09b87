//! Composition of environment-light rigs for a scene description.
//!
//! A rig is a small fixed subgraph of scene nodes — a rotation
//! transform, an environment light, an attributes node and a shader —
//! that every environment variant shares. The functions here assemble
//! such a rig as a [`plan::RigPlan`]: an explicit list of node
//! creations, connections and attribute writes that an executor then
//! replays against a live scene context.

pub mod attr;
pub mod compose;
pub mod laws;
pub mod plan;

pub use compose::FreshHandles;
pub use compose::environment;
pub use compose::environment_sky;
pub use compose::environment_texture;

pub use attr::Attr;
pub use attr::AttrValue;
pub use plan::AttrSet;
pub use plan::Connection;
pub use plan::NodeKind;
pub use plan::NodeSpec;
pub use plan::RigPlan;
