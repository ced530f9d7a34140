//! Engine resources of a compact 2D game engine: input state and bindings,
//! game-state transitions, configuration, GUI themes, tracked groups, and
//! the bookkeeping of the scripting layer's pooled tables.
pub mod text;
pub mod keys;
pub mod input_action;
pub mod input;
pub mod input_snapshot;
pub mod input_bindings;
pub mod gamestate;
pub mod flags;
pub mod color;
pub mod camera_follow;
pub mod group;
pub mod warn_once;
pub mod guitheme;
pub mod fontmetrics;
pub mod entity_context;
pub mod edge_events;
pub mod script_config;
pub mod generation;
pub mod gameconfig;
