//! A render-graph node framework with a frame-in-flight submission scheduler.
//!
//! GPU work is composed as a directed graph of reusable passes ("nodes").
//! A node template describes the pass once (links, pipeline, produced
//! images); instances of it carry per-frame command buffers and semaphores.
//! The scheduler owns one record per swapchain image and chains
//! semaphore-gated submissions each frame, bounded by per-slot fences.
//!
//! GPU objects themselves (images, pipelines, semaphores, fences) live in
//! the graphics backend; this crate models each one by an opaque numeric
//! handle and verifies the logic that creates, wires and reuses them.

pub mod config;
pub mod deferred_pbr;
pub mod effect;
pub mod error;
pub mod event;
pub mod g_buffer_filler;
pub mod gapi;
pub mod graph;
pub mod image;
pub mod laws;
pub mod manager;
pub mod node;
pub mod object;
pub mod pipeline;
pub mod shadow_accumulator;
pub mod shadow_mapper;
pub mod shadower;
pub mod ssao;
pub mod storage;
pub mod tree;

pub use object::{Id, IdGenerator};
