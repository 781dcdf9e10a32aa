use gd_extension::extension::{
    EditorRunBehavior, InitLevel, MyExtensition, SingletonAction, SINGLETON_NAME,
};

const LEVELS: [InitLevel; 4] =
    [InitLevel::Core, InitLevel::Servers, InitLevel::Scene, InitLevel::Editor];

#[test]
fn editor_runs_tool_classes_only() {
    assert_eq!(MyExtensition::editor_run_behavior(), EditorRunBehavior::ToolClassesOnly);
    assert_ne!(MyExtensition::editor_run_behavior(), EditorRunBehavior::AllClasses);
}

#[test]
fn min_level_is_editor() {
    assert_eq!(MyExtensition::min_level(), InitLevel::Editor);
}

#[test]
fn init_registers_at_scene() {
    assert_eq!(MyExtensition::on_level_init(InitLevel::Scene), SingletonAction::Register);
}

#[test]
fn init_keeps_at_other_levels() {
    assert_eq!(MyExtensition::on_level_init(InitLevel::Core), SingletonAction::Keep);
    assert_eq!(MyExtensition::on_level_init(InitLevel::Servers), SingletonAction::Keep);
    assert_eq!(MyExtensition::on_level_init(InitLevel::Editor), SingletonAction::Keep);
}

#[test]
fn deinit_removes_at_scene() {
    assert_eq!(MyExtensition::on_level_deinit(InitLevel::Scene), SingletonAction::Remove);
}

#[test]
fn deinit_keeps_at_other_levels() {
    assert_eq!(MyExtensition::on_level_deinit(InitLevel::Core), SingletonAction::Keep);
    assert_eq!(MyExtensition::on_level_deinit(InitLevel::Servers), SingletonAction::Keep);
    assert_eq!(MyExtensition::on_level_deinit(InitLevel::Editor), SingletonAction::Keep);
}

#[test]
fn register_and_remove_share_a_level() {
    for level in LEVELS {
        let up = MyExtensition::on_level_init(level);
        let down = MyExtensition::on_level_deinit(level);
        assert_eq!(up == SingletonAction::Register, down == SingletonAction::Remove);
        assert_ne!(up, SingletonAction::Remove);
        assert_ne!(down, SingletonAction::Register);
    }
}

#[test]
fn full_cycle_registers_once_and_removes_once() {
    let mut registered: i32 = 0;
    for level in LEVELS {
        if MyExtensition::on_level_init(level) == SingletonAction::Register {
            registered += 1;
        }
    }
    assert_eq!(registered, 1);
    for level in LEVELS.iter().rev() {
        if MyExtensition::on_level_deinit(*level) == SingletonAction::Remove {
            registered -= 1;
        }
    }
    assert_eq!(registered, 0);
}

#[test]
fn singleton_name_is_fixed() {
    assert_eq!(SINGLETON_NAME, "RustObjectSingleton");
}

#[test]
fn missing_singleton_message_names_the_singleton() {
    let message = MyExtensition::missing_singleton_message();
    assert_eq!(message, "SingletonNotFuond: RustObjectSingleton");
    assert_eq!(message, format!("SingletonNotFuond: {}", SINGLETON_NAME));
}
