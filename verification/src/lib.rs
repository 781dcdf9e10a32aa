//! Verified core of a small GDExtension library.
//!
//! The library registers a few classes with the Godot engine. Everything the
//! engine has to be asked for (the singleton registry, the scene tree, the
//! editor's output panel) is done by the glue that links against the engine.
//! What that glue decides on, and the plain data it exposes to scripts, lives
//! here, where each function carries a contract that Verus proves.
//!
//! * [`extension`]: the entry point's answers to the engine, stage by stage.
//! * [`resource`]: the data record behind the scriptable resource class.

pub mod extension;
pub mod resource;

pub use extension::{EditorRunBehavior, InitLevel, MyExtensition, SingletonAction, SINGLETON_NAME};
pub use resource::{RustResource, CUSTOM_CONST};
