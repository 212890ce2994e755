//! Simulation core of a tick-based, chunk-partitioned block-world game
//! server: a spatial index from chunk coordinates to the entities inside
//! them, an environmental (weather) state machine advanced once per tick,
//! broadcast policies that turn domain events into packets for the right
//! clients, and a deterministic finisher pass that decorates freshly
//! generated chunks.

pub mod base;
pub mod broadcast;
pub mod chunk_entities;
pub mod finisher;
pub mod hlist;
pub mod inventory;
pub mod weather;
