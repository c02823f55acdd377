use mcserver_setup::app::{App, Effect, Key, Page};
use mcserver_setup::config::{GameMode, Runtime, ServerConfig};

fn key(k: Key) -> Key {
    k
}

#[test]
fn first_run_user_flow_reaches_review() {
    let mut app = App::default();
    app.handle_key(key(Key::Enter));
    assert_eq!(app.page, Page::Configure);
    for _ in 0..App::FIELD_COUNT - 1 {
        app.handle_key(key(Key::Down));
    }
    app.handle_key(key(Key::Enter));
    assert_eq!(app.page, Page::Review);
}

#[test]
fn player_choice_updates_recommended_memory() {
    let mut app = App {
        page: Page::Configure,
        ..Default::default()
    };
    app.selected = 2;
    app.handle_key(key(Key::Right));
    assert_eq!(app.config.max_players, 15);
    assert_eq!(app.config.memory_gb, 4);
}

#[test]
fn name_and_folder_can_be_edited_in_the_wizard() {
    let mut app = App {
        page: Page::Configure,
        ..Default::default()
    };
    app.handle_key(key(Key::Char('e')));
    app.handle_key(key(Key::Char('!')));
    app.handle_key(key(Key::Enter));
    assert_eq!(app.config.name, "My Minecraft Server!");
    app.selected = 1;
    app.handle_key(key(Key::Char('e')));
    app.handle_key(key(Key::Char('2')));
    app.handle_key(key(Key::Enter));
    assert_eq!(app.config.directory, "minecraft-server2");
}

fn configure() -> App {
    App {
        page: Page::Configure,
        ..Default::default()
    }
}

#[test]
fn quit_keys_stop_the_wizard_on_every_page() {
    for page in [Page::Welcome, Page::Configure, Page::Review, Page::Complete] {
        for k in [Key::Char('q'), Key::Esc] {
            let mut app = App { page, ..Default::default() };
            assert_eq!(app.handle_key(k), Effect::Handled);
            assert!(!app.running);
            assert_eq!(app.page, page);
        }
    }
}

#[test]
fn q_is_typed_while_editing() {
    let mut app = configure();
    app.handle_key(Key::Char('e'));
    assert!(app.editing);
    assert_eq!(app.message, "Editing — type, Backspace to delete, Enter to save.");
    app.handle_key(Key::Char('q'));
    assert!(app.running);
    assert_eq!(app.config.name, "My Minecraft Serverq");
    app.handle_key(Key::Esc);
    assert!(!app.editing);
    assert!(app.running);
    assert_eq!(app.message, "");
}

#[test]
fn backspace_removes_the_last_character() {
    let mut app = configure();
    app.selected = 1;
    app.handle_key(Key::Char('e'));
    app.handle_key(Key::Backspace);
    app.handle_key(Key::Backspace);
    app.handle_key(Key::Enter);
    assert_eq!(app.config.directory, "minecraft-serv");
    let mut empty = configure();
    empty.config.name = String::new();
    empty.handle_key(Key::Char('e'));
    empty.handle_key(Key::Backspace);
    assert_eq!(empty.config.name, "");
}

#[test]
fn e_edits_only_text_rows() {
    let mut app = configure();
    app.selected = 2;
    app.handle_key(Key::Char('e'));
    assert!(!app.editing);
    assert_eq!(app.message, "");
}

#[test]
fn cursor_wraps_around_the_rows() {
    let mut app = configure();
    assert_eq!(App::FIELD_COUNT, 22);
    app.handle_key(Key::Up);
    assert_eq!(app.selected, 21);
    app.handle_key(Key::Char('j'));
    assert_eq!(app.selected, 0);
    app.handle_key(Key::Char('k'));
    app.handle_key(Key::Down);
    assert_eq!(app.selected, 0);
}

#[test]
fn players_are_kept_between_one_and_a_hundred() {
    let mut app = configure();
    app.selected = 2;
    for _ in 0..30 {
        app.handle_key(Key::Right);
    }
    assert_eq!(app.config.max_players, 100);
    assert_eq!(app.config.memory_gb, 8);
    for _ in 0..30 {
        app.handle_key(Key::Char('h'));
    }
    assert_eq!(app.config.max_players, 1);
    assert_eq!(app.config.memory_gb, 2);
}

#[test]
fn memory_can_be_overridden_within_bounds() {
    let mut app = configure();
    app.selected = 3;
    app.handle_key(Key::Char('l'));
    assert_eq!(app.config.memory_gb, 3);
    assert_eq!(app.config.max_players, 10);
    for _ in 0..40 {
        app.handle_key(Key::Right);
    }
    assert_eq!(app.config.memory_gb, 32);
    for _ in 0..40 {
        app.handle_key(Key::Left);
    }
    assert_eq!(app.config.memory_gb, 1);
}

#[test]
fn choices_cycle_and_wrap() {
    let mut app = configure();
    app.selected = 4;
    app.handle_key(Key::Right);
    assert_eq!(app.config.runtime, Runtime::Native);
    app.handle_key(Key::Right);
    assert_eq!(app.config.runtime, Runtime::Docker);
    app.selected = 5;
    app.handle_key(Key::Left);
    assert_eq!(app.config.gamemode, GameMode::Spectator);
    app.handle_key(Key::Right);
    assert_eq!(app.config.gamemode, GameMode::Survival);
    app.selected = 6;
    app.handle_key(Key::Right);
    assert_eq!(app.config.difficulty, "hard");
    app.handle_key(Key::Right);
    assert_eq!(app.config.difficulty, "peaceful");
    app.selected = 10;
    app.handle_key(Key::Left);
    assert_eq!(app.config.version, "1.21.7");
    app.config.version = "1.20".to_string();
    app.handle_key(Key::Right);
    assert_eq!(app.config.version, "1.21.8");
}

#[test]
fn switches_flip() {
    let mut app = configure();
    for (row, _) in [(7usize, ()), (8, ()), (9, ())] {
        app.selected = row;
        app.handle_key(Key::Right);
    }
    assert!(!app.config.online_mode);
    assert!(app.config.whitelist);
    assert!(!app.config.pvp);
    app.selected = 9;
    app.handle_key(Key::Left);
    assert!(app.config.pvp);
}

#[test]
fn invalid_settings_stay_on_the_page_with_a_message() {
    let mut app = configure();
    app.config.port = 80;
    app.selected = App::FIELD_COUNT - 1;
    app.handle_key(Key::Enter);
    assert_eq!(app.page, Page::Configure);
    assert_eq!(app.message, "Choose a server port from 1024 to 65535.");
}

#[test]
fn review_can_go_back_or_ask_for_the_files() {
    let mut app = App {
        page: Page::Review,
        ..Default::default()
    };
    assert_eq!(app.handle_key(Key::Char('x')), Effect::Handled);
    assert_eq!(app.handle_key(Key::Enter), Effect::Install);
    assert_eq!(app.page, Page::Review);
    assert_eq!(app.handle_key(Key::Char('b')), Effect::Handled);
    assert_eq!(app.page, Page::Configure);
    app.page = Page::Review;
    app.handle_key(Key::Left);
    assert_eq!(app.page, Page::Configure);
}

#[test]
fn finishing_the_install_reports_the_outcome() {
    let mut app = App {
        page: Page::Review,
        ..Default::default()
    };
    app.finish_install(Err("Install directory is not empty: x".to_string()));
    assert_eq!(app.page, Page::Review);
    assert_eq!(app.message, "Install directory is not empty: x");
    app.finish_install(Ok(()));
    assert_eq!(app.page, Page::Complete);
    assert_eq!(app.message, "Server files created successfully.");
    app.handle_key(Key::Enter);
    assert!(!app.running);
}

#[test]
fn welcome_starts_with_enter_or_s() {
    let mut app = App::default();
    app.handle_key(Key::Other);
    assert_eq!(app.page, Page::Welcome);
    app.handle_key(Key::Char('s'));
    assert_eq!(app.page, Page::Configure);
}

#[test]
fn defaults_match_a_fresh_setup() {
    let c = ServerConfig::default();
    assert_eq!(c.name, "My Minecraft Server");
    assert_eq!(c.directory, "minecraft-server");
    assert_eq!(c.motd, "A Minecraft Server");
    assert_eq!(c.seed, "");
    assert_eq!(c.max_players, 10);
    assert_eq!(c.memory_gb, 2);
    assert_eq!(c.version, "LATEST");
    assert_eq!(c.difficulty, "normal");
    assert_eq!(c.port, 25565);
    assert_eq!(c.max_world_size, 29_999_984);
    assert_eq!(c.spawn_protection, 16);
    let app = App::default();
    assert!(app.running);
    assert_eq!(app.page, Page::Welcome);
    assert_eq!(app.selected, 0);
}

#[test]
fn enter_reviews_only_on_continue() {
    let mut app = configure();
    app.selected = 11;
    app.handle_key(Key::Enter);
    assert_eq!(app.page, Page::Configure);
    app.selected = 21;
    app.handle_key(Key::Enter);
    assert_eq!(app.page, Page::Review);
    assert_eq!(app.message, "");
}

#[test]
fn motd_and_seed_can_be_typed() {
    let mut app = configure();
    app.selected = 11;
    app.handle_key(Key::Char('e'));
    assert!(app.editing);
    app.handle_key(Key::Backspace);
    app.handle_key(Key::Char('!'));
    app.handle_key(Key::Enter);
    assert_eq!(app.config.motd, "A Minecraft Serve!");
    app.handle_key(Key::Down);
    assert_eq!(app.selected, 12);
    app.handle_key(Key::Char('e'));
    for ch in "1234".chars() {
        app.handle_key(Key::Char(ch));
    }
    app.handle_key(Key::Esc);
    assert!(app.running);
    assert_eq!(app.config.seed, "1234");
}

#[test]
fn advanced_settings_move_with_the_arrows() {
    let mut app = configure();
    app.selected = 13;
    app.handle_key(Key::Right);
    assert_eq!(app.config.port, 25566);
    app.config.port = 1024;
    app.handle_key(Key::Left);
    assert_eq!(app.config.port, 1024);
    app.config.port = 65535;
    app.handle_key(Key::Right);
    assert_eq!(app.config.port, 65535);
    app.selected = 14;
    app.handle_key(Key::Left);
    assert_eq!(app.config.view_distance, 9);
    app.config.view_distance = 32;
    app.handle_key(Key::Right);
    assert_eq!(app.config.view_distance, 32);
    app.selected = 15;
    app.config.simulation_distance = 2;
    app.handle_key(Key::Char('h'));
    assert_eq!(app.config.simulation_distance, 2);
    app.handle_key(Key::Char('l'));
    assert_eq!(app.config.simulation_distance, 3);
    for (row, _) in [(16usize, ()), (17, ()), (18, ())] {
        app.selected = row;
        app.handle_key(Key::Right);
    }
    assert!(app.config.hardcore);
    assert!(app.config.allow_flight);
    assert!(app.config.command_blocks);
    app.selected = 19;
    app.handle_key(Key::Left);
    assert_eq!(app.config.max_world_size, 29_998_984);
    app.handle_key(Key::Right);
    app.handle_key(Key::Right);
    assert_eq!(app.config.max_world_size, 29_999_984);
    app.config.max_world_size = 500;
    app.handle_key(Key::Left);
    assert_eq!(app.config.max_world_size, 1);
    app.selected = 20;
    app.handle_key(Key::Right);
    assert_eq!(app.config.spawn_protection, 17);
    app.config.spawn_protection = 0;
    app.handle_key(Key::Left);
    assert_eq!(app.config.spawn_protection, 0);
    app.selected = 21;
    app.handle_key(Key::Right);
    assert_eq!(app.config.spawn_protection, 0);
    assert_eq!(app.config.port, 65535);
}

#[test]
fn overflow_is_reported_before_a_key_is_handled() {
    let mut app = configure();
    app.selected = 2;
    app.config.max_players = 32765;
    assert!(!app.key_fits(Key::Right));
    assert!(app.key_fits(Key::Left));
    app.selected = 3;
    app.config.memory_gb = 127;
    assert!(!app.key_fits(Key::Right));
    app.config.memory_gb = 128;
    assert!(!app.key_fits(Key::Left));
    assert!(app.key_fits(Key::Right));
    app.selected = usize::MAX;
    assert!(!app.key_fits(Key::Down));
    assert!(app.key_fits(Key::Char('q')));
}
