//! A ray caster for triangle meshes, written over any scalar arithmetic.
use vstd::prelude::*;

pub mod camera;
pub mod frame;
pub mod geometry;
pub mod intersect;
pub mod objects;
pub mod render;
pub mod scalar;
pub mod vectors;
