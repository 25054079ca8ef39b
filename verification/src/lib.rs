//! Runtime object model of a small real-time engine.
//!
//! The core is an entity/component/scene ownership graph: a scene owns every
//! entity and every component of one level, entities and components refer to
//! each other through stable index handles, and an application holds the
//! ordered scene set and drives the per-frame update and render passes.

pub mod application;
pub mod builder;
pub mod ecs;
pub mod error;
pub mod renderer;
