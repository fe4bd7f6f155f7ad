use instantwm_rs::cli::{
    join_words, Cli, CliHandler, CommandOutput, Commands, GetCommands, SetCommands, VERSION,
};
use instantwm_rs::types::{Config, LayoutType, Rectangle, TagId, WindowId};
use instantwm_rs::window_manager::WindowManager;

fn setup() -> (CliHandler, WindowManager) {
    let mut config = Config::default();
    config.tags.layouts = vec!["tiling".to_string()];
    config.appearance.gap_size = 0;
    config.appearance.inner_gap = 0;
    config.appearance.bar_height = 0;
    config.rules = Vec::new();
    let wm = WindowManager::new(config.clone(), Rectangle::new(0, 0, 1000, 800)).unwrap();
    (CliHandler::new(config), wm)
}

fn message(reply: Result<CommandOutput, String>) -> String {
    match reply {
        Ok(CommandOutput::Message(text)) => text,
        other => panic!("no message: {:?}", other),
    }
}

#[test]
fn tag_command() {
    let (cli, mut wm) = setup();
    assert_eq!(
        message(cli.handle_command(&mut wm, Commands::Tag { number: 3 })),
        "Switched to tag 3"
    );
    assert_eq!(wm.current_tag, TagId::new(2));
    assert_eq!(
        message(cli.handle_command(&mut wm, Commands::Tag { number: 3 })),
        "Switched to tag 3"
    );
    assert_eq!(
        cli.handle_command(&mut wm, Commands::Tag { number: 0 }).unwrap_err(),
        "Invalid tag number: 0"
    );
    assert_eq!(
        cli.handle_command(&mut wm, Commands::Tag { number: 10 }).unwrap_err(),
        "Invalid tag number: 10"
    );
    assert_eq!(wm.current_tag, TagId::new(2));
    assert_eq!(
        message(cli.handle_command(&mut wm, Commands::Get { what: GetCommands::Tag })),
        "Current tag: 3"
    );
}

#[test]
fn commands_on_the_focused_window() {
    let (cli, mut wm) = setup();
    for command in [
        Commands::MoveToTag { number: 2 },
        Commands::ToggleFloating,
        Commands::Close,
        Commands::Get { what: GetCommands::Focused },
    ] {
        assert_eq!(cli.handle_command(&mut wm, command).unwrap_err(), "No focused window");
    }
    let a = wm.manage_window("A".to_string(), "Term".to_string(), Rectangle::new(1, 1, 9, 9));
    let b = wm.manage_window("B".to_string(), "Edit".to_string(), Rectangle::new(1, 1, 9, 9));
    assert_eq!(
        cli.handle_command(&mut wm, Commands::MoveToTag { number: 0 }).unwrap_err(),
        "Invalid tag number: 0"
    );
    assert_eq!(
        message(cli.handle_command(&mut wm, Commands::ToggleFloating)),
        "Toggled floating mode"
    );
    assert!(wm.is_window_floating(b));
    match cli.handle_command(&mut wm, Commands::Get { what: GetCommands::Focused }) {
        Ok(CommandOutput::Focused(info)) => {
            assert_eq!(info.id, b.as_u64());
            assert_eq!(info.title, "B");
            assert_eq!(info.class, "Edit");
            assert_eq!(info.geometry, Rectangle::new(600, 0, 400, 800));
            assert!(info.floating);
            assert_eq!(info.tag, 1);
        }
        other => panic!("no window: {:?}", other),
    }
    match cli.handle_command(&mut wm, Commands::Get { what: GetCommands::Windows }) {
        Ok(CommandOutput::Windows(list)) => {
            assert_eq!(list.len(), 2);
            assert_eq!(list[0].id, a.as_u64());
            assert_eq!(list[0].title, "A");
            assert_eq!(list[0].geometry, Rectangle::new(0, 0, 1000, 800));
            assert!(!list[0].floating);
            assert_eq!(list[0].tag, 1);
            assert_eq!(list[1].id, b.as_u64());
        }
        other => panic!("no windows: {:?}", other),
    }
    assert_eq!(
        message(cli.handle_command(&mut wm, Commands::MoveToTag { number: 4 })),
        "Moved window to tag 4"
    );
    assert_eq!(wm.tags[3].windows, vec![b]);
    assert_eq!(message(cli.handle_command(&mut wm, Commands::Close)), "Closed window");
    assert!(wm.get_window(a).is_none());
    assert!(wm.tags[0].windows.is_empty());
    assert_eq!(wm.get_window(b).unwrap().id, WindowId::new(1));
}

#[test]
fn spawn_reload_exit_and_version() {
    let (cli, mut wm) = setup();
    match cli.handle_command(
        &mut wm,
        Commands::Spawn {
            command: "grim".to_string(),
            args: vec!["-g".to_string(), "0,0 10x10".to_string()],
        },
    ) {
        Ok(CommandOutput::Spawn { command, args, message }) => {
            assert_eq!(command, "grim");
            assert_eq!(args, vec!["-g", "0,0 10x10"]);
            assert_eq!(message, "Spawned: grim -g 0,0 10x10");
        }
        other => panic!("nothing to spawn: {:?}", other),
    }
    match cli.handle_command(
        &mut wm,
        Commands::Spawn { command: "true".to_string(), args: Vec::new() },
    ) {
        Ok(CommandOutput::Spawn { message, .. }) => assert_eq!(message, "Spawned: true "),
        other => panic!("nothing to spawn: {:?}", other),
    }
    assert!(matches!(
        cli.handle_command(&mut wm, Commands::Reload),
        Ok(CommandOutput::Reload(text)) if text == "Configuration reloaded"
    ));
    assert!(matches!(
        cli.handle_command(&mut wm, Commands::Exit),
        Ok(CommandOutput::Exit(text)) if text == "Exiting instantWM"
    ));
    assert!(matches!(
        cli.handle_command(&mut wm, Commands::Get { what: GetCommands::Config }),
        Ok(CommandOutput::Config)
    ));
    assert_eq!(
        message(cli.handle_command(&mut wm, Commands::Get { what: GetCommands::Version })),
        VERSION
    );
    assert_eq!(join_words(&vec!["a".to_string(), "b".to_string(), "c".to_string()]), "a b c");
    assert_eq!(join_words(&Vec::new()), "");
}

#[test]
fn set_commands() {
    let (cli, mut wm) = setup();
    let a = wm.manage_window("A".to_string(), "Term".to_string(), Rectangle::new(1, 1, 9, 9));
    assert_eq!(
        message(cli.handle_command(
            &mut wm,
            Commands::SetValue { what: SetCommands::Layout { layout: "monocle".to_string() } }
        )),
        "Set layout to monocle"
    );
    assert_eq!(wm.current_layout(), LayoutType::Monocle);
    assert_eq!(wm.tags[0].layout.master_ratio, 900);
    assert_eq!(
        cli.handle_command(
            &mut wm,
            Commands::SetValue { what: SetCommands::Layout { layout: "spiral".to_string() } }
        )
        .unwrap_err(),
        "Unknown layout: spiral"
    );
    assert_eq!(
        message(cli.handle_command(
            &mut wm,
            Commands::SetValue { what: SetCommands::Gap { size: 20 } }
        )),
        "Set gap size to 20"
    );
    assert_eq!(wm.config.appearance.gap_size, 20);
    assert_eq!(wm.get_window(a).unwrap().geometry, Rectangle::new(20, 20, 960, 760));
    assert_eq!(
        message(cli.handle_command(
            &mut wm,
            Commands::SetValue { what: SetCommands::Border { width: 2 } }
        )),
        "Set border width to 2"
    );
    assert_eq!(wm.config.appearance.border_width, 2);
    let line = Cli { command: Commands::Reload };
    assert!(matches!(line.command, Commands::Reload));
}
