//! The entity/component/scene ownership graph.

pub mod component;
pub mod entity;
pub mod scene;
