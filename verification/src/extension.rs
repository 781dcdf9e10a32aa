//! The entry point of the extension: what it tells the engine about itself,
//! and what it does with the engine's singleton registry at each stage of
//! start-up and shutdown.

use vstd::prelude::*;

verus! {

/// A stage of the engine's start-up. The engine climbs through the stages in
/// the order written here, and descends through them in reverse on shutdown.
#[derive(Clone, Copy, Debug, PartialEq, Eq, Structural)]
pub enum InitLevel {
    /// Only the built-in value types exist.
    Core,
    /// Built-in value types and the server classes exist.
    Servers,
    /// Nearly every class exists.
    Scene,
    /// Every class exists, the editor-only ones included.
    Editor,
}

/// How much of the extension runs inside the editor.
#[derive(Clone, Copy, Debug, PartialEq, Eq, Structural)]
pub enum EditorRunBehavior {
    /// Every class is registered and callable from scripts, but lifecycle
    /// callbacks run in the editor only for classes marked as tools.
    ToolClassesOnly,
    /// Lifecycle callbacks run in the editor for every class.
    AllClasses,
}

/// What the entry point wants done with its singleton at one stage.
#[derive(Clone, Copy, Debug, PartialEq, Eq, Structural)]
pub enum SingletonAction {
    /// Leave the registry alone.
    Keep,
    /// Allocate the object and register it under [`SINGLETON_NAME`].
    Register,
    /// Look the object up under [`SINGLETON_NAME`], take it out of the
    /// registry and free it. Not finding it there is a failure, reported with
    /// [`MyExtensition::missing_singleton_message`].
    Remove,
}

/// The name under which the extension's singleton is registered, looked up
/// and removed.
pub const SINGLETON_NAME: &'static str = "RustObjectSingleton";

/// Tag type for the extension's entry point. It holds no data.
pub struct MyExtensition;

impl MyExtensition {
    /// The stage at which the singleton comes and goes.
    pub open spec fn singleton_level() -> InitLevel {
        InitLevel::Scene
    }

    /// The action owed when the engine has finished loading `level`.
    pub open spec fn init_action(level: InitLevel) -> SingletonAction {
        if level == Self::singleton_level() {
            SingletonAction::Register
        } else {
            SingletonAction::Keep
        }
    }

    /// The action owed when the engine is about to unload `level`.
    pub open spec fn deinit_action(level: InitLevel) -> SingletonAction {
        if level == Self::singleton_level() {
            SingletonAction::Remove
        } else {
            SingletonAction::Keep
        }
    }

    /// Lifecycle callbacks run in the editor for tool classes only.
    pub fn editor_run_behavior() -> (behavior: EditorRunBehavior)
        ensures
            behavior == EditorRunBehavior::ToolClassesOnly,
    {
        EditorRunBehavior::ToolClassesOnly
    }

    /// The earliest stage that the extension asks the engine to load it at:
    /// the last one, [`InitLevel::Editor`].
    pub fn min_level() -> (level: InitLevel)
        ensures
            level == InitLevel::Editor,
    {
        InitLevel::Editor
    }

    /// Called once per stage on the way up. The singleton is registered at
    /// [`InitLevel::Scene`]; every other stage leaves the registry alone.
    pub fn on_level_init(level: InitLevel) -> (action: SingletonAction)
        ensures
            action == Self::init_action(level),
    {
        match level {
            InitLevel::Scene => SingletonAction::Register,
            _ => SingletonAction::Keep,
        }
    }

    /// Called once per stage on the way down. The singleton is removed at
    /// [`InitLevel::Scene`]; every other stage leaves the registry alone.
    pub fn on_level_deinit(level: InitLevel) -> (action: SingletonAction)
        ensures
            action == Self::deinit_action(level),
    {
        match level {
            InitLevel::Scene => SingletonAction::Remove,
            _ => SingletonAction::Keep,
        }
    }

    /// The text to fail with when the singleton is not in the registry at the
    /// time it should be removed.
    pub fn missing_singleton_message() -> (message: String)
        ensures
            message@ == "SingletonNotFuond: "@ + SINGLETON_NAME@,
    {
        proof {
            reveal_strlit("SingletonNotFuond: ");
            reveal_strlit("RustObjectSingleton");
            reveal_strlit("SingletonNotFuond: RustObjectSingleton");
        }
        String::from_str("SingletonNotFuond: RustObjectSingleton")
    }

    /// A stage registers the singleton on the way up exactly if it removes the
    /// singleton on the way down. Nothing is removed on the way up, and
    /// nothing is registered on the way down.
    pub proof fn lemma_register_matches_remove(level: InitLevel)
        ensures
            Self::init_action(level) == SingletonAction::Register
                <==> Self::deinit_action(level) == SingletonAction::Remove,
            Self::init_action(level) != SingletonAction::Remove,
            Self::deinit_action(level) != SingletonAction::Register,
    {
    }
}

} // verus!
