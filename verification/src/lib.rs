//! Scrysynth core: the canonical session graph of a graph-native audiovisual
//! instrument, and the verified rules that edit, gate, compile and route it.
pub mod float_bits;
pub mod text;
pub mod domain;
pub mod ordering;
pub mod lookup;
pub mod graph_edit;
pub mod params;
pub mod performance;
pub mod planner;
pub mod agent;
pub mod synthdefs;
pub mod sc_commands;
pub mod sc_apply;
pub mod osc;
pub mod catalog;
pub mod compiler;
pub mod hardware;
pub mod defaults;
pub mod macros;
pub mod visual;
pub mod visual_compile;
pub mod session_store;
pub mod runtime;
pub mod hardware_listeners;
pub mod live_input;
pub mod session_file;
pub mod intent;
pub mod sequencer;
pub mod visual_render;
pub mod visual_adapter;
