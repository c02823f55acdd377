use mcserver_setup::app::{field_at, App, Field, Key, Page};
use mcserver_setup::config::{Runtime, ServerConfig};
use mcserver_setup::ui::{
    complete_text, cursor_mark, field_label, field_labels, field_value, field_values, help_text, label_cell, review_text,
    list_scroll, settings_list_height, settings_panel_height, tip_text, yes_no,
};

#[test]
fn yes_no_words() {
    assert_eq!(yes_no(true), "Yes");
    assert_eq!(yes_no(false), "No");
}

#[test]
fn help_for_each_page() {
    assert_eq!(help_text(Page::Welcome), "Enter  start setup     Q  quit");
    assert_eq!(help_text(Page::Configure), "↑↓ choose  ←→ change  E edit text fields  Enter review  Q quit");
    assert_eq!(help_text(Page::Review), "Enter  create server     B  back     Q  quit");
    assert_eq!(help_text(Page::Complete), "Enter / Q  finish");
}

#[test]
fn tips_follow_the_cursor() {
    for row in [0usize, 1, 11, 12] {
        assert_eq!(tip_text(row), "Press E to edit server name, folder, MOTD, or world seed.");
    }
    assert_eq!(tip_text(2), "Memory is automatically suggested from player count; you can override it.");
    assert_eq!(tip_text(3), "Use left/right arrows to adjust the selected option.");
    assert_eq!(tip_text(13), "Use left/right arrows to adjust the selected option.");
    assert_eq!(tip_text(21), "Use left/right arrows to adjust the selected option.");
    assert_eq!(cursor_mark(true), "❯ ");
    assert_eq!(cursor_mark(false), "  ");
}

#[test]
fn labels_are_padded_to_their_column() {
    assert_eq!(label_cell("Server name"), format!("{:<24}", "Server name"));
    assert_eq!(label_cell("Server name").chars().count(), 24);
    assert_eq!(label_cell(""), " ".repeat(24));
    let long = "A label longer than the column is";
    assert_eq!(label_cell(long), long);
    assert_eq!(label_cell("é"), format!("{:<24}", "é"));
}

#[test]
fn settings_rows_for_the_defaults() {
    let labels = field_labels();
    assert_eq!(labels.len(), App::FIELD_COUNT);
    assert_eq!(
        labels,
        vec![
            "Server name",
            "Install folder",
            "Expected players",
            "Memory allocation",
            "How to run",
            "Game mode",
            "Difficulty",
            "Online authentication",
            "Whitelist",
            "Player combat",
            "Minecraft version",
            "Server message (MOTD)",
            "World seed",
            "Server port",
            "View distance",
            "Simulation distance",
            "Hardcore world",
            "Allow flight",
            "Command blocks",
            "Max world size",
            "Spawn protection",
            "Continue",
        ]
    );
    let mut c = ServerConfig::default();
    let values = field_values(&c);
    assert_eq!(
        values,
        vec![
            "My Minecraft Server",
            "minecraft-server",
            "10 players",
            "2 GB",
            "Docker Compose",
            "Survival",
            "normal",
            "Yes",
            "No",
            "Yes",
            "LATEST",
            "A Minecraft Server",
            "Random",
            "25565",
            "10 chunks",
            "10 chunks",
            "No",
            "No",
            "No",
            "29999984",
            "16 blocks",
            "Review & create →",
        ]
    );
    c.seed = "42".to_string();
    assert_eq!(field_values(&c)[12], "42");
    assert_eq!(field_label(Field::Players), "Expected players");
    assert_eq!(field_value(&c, Field::Memory), "2 GB");
}

#[test]
fn the_row_under_the_cursor_is_the_row_the_keys_change() {
    let mut app = App {
        page: Page::Configure,
        ..Default::default()
    };
    app.selected = 2;
    assert_eq!(field_at(app.selected), Some(Field::Players));
    assert_eq!(field_labels()[app.selected], "Expected players");
    app.handle_key(Key::Right);
    assert_eq!(field_values(&app.config)[2], "15 players");
    assert_eq!(field_values(&app.config)[3], "4 GB");
    assert_eq!(field_at(App::FIELD_COUNT - 1), Some(Field::Continue));
    assert_eq!(field_at(App::FIELD_COUNT), None);
}

#[test]
fn review_summary_for_the_defaults() {
    let c = ServerConfig::default();
    assert_eq!(
        review_text(&c),
        "My Minecraft Server\n\nDocker Compose (recommended) • 10 players • 2 GB RAM\nSurvival • normal difficulty • port 25565\n10 chunks view • 10 chunks simulation • seed: Random\nHardcore: No    Flight: No    Command blocks: No\nAuthentication: Yes    Whitelist: No    PvP: Yes\n\nInstall folder: minecraft-server\n\nPress Enter to create the server files. No network or system changes are made by this step."
    );
    let native = ServerConfig { runtime: Runtime::Native, seed: "7".to_string(), ..Default::default() };
    assert!(review_text(&native).contains("Native Java 21+ • "));
    assert!(review_text(&native).contains("seed: 7\n"));
}

#[test]
fn completion_page_says_how_to_start() {
    let mut app = App::default();
    app.message = "Server files created successfully.".to_string();
    assert_eq!(
        complete_text(&app),
        "✓ Server files created successfully.\n\nminecraft-server\n\nRun: docker compose up -d\n\nYour EULA acceptance, server properties, and reproducible setup configuration are ready. Back up the folder before large changes."
    );
    app.config.runtime = Runtime::Native;
    assert!(complete_text(&app).contains("Run the platform-appropriate install script in that folder."));
}

#[test]
fn settings_panel_fits_its_area() {
    assert_eq!(settings_panel_height(40), 29);
    assert_eq!(settings_panel_height(10), 10);
    assert_eq!(settings_list_height(40), 24);
    assert_eq!(settings_list_height(10), 6);
    assert_eq!(settings_list_height(3), 0);
}

#[test]
fn list_scrolls_to_keep_the_cursor_in_view() {
    assert_eq!(list_scroll(0, 17), 0);
    assert_eq!(list_scroll(14, 17), 0);
    assert_eq!(list_scroll(15, 17), 1);
    assert_eq!(list_scroll(21, 17), 7);
    assert_eq!(list_scroll(21, 24), 0);
    assert_eq!(list_scroll(5, 2), 0);
    assert_eq!(list_scroll(5, 1), 0);
}
