use mcserver_setup::config::{GameMode, Runtime, ServerConfig};

#[test]
fn labels_name_each_choice() {
    assert_eq!(Runtime::Docker.label(), "Docker Compose");
    assert_eq!(Runtime::Native.label(), "Native Java");
    assert_eq!(GameMode::Survival.label(), "Survival");
    assert_eq!(GameMode::Creative.label(), "Creative");
    assert_eq!(GameMode::Adventure.label(), "Adventure");
    assert_eq!(GameMode::Spectator.label(), "Spectator");
    assert_eq!(Runtime::default(), Runtime::Docker);
    assert_eq!(GameMode::default(), GameMode::Survival);
}

#[test]
fn memory_recommendation_steps_with_players() {
    let cases = [(0u16, 2u8), (5, 2), (6, 4), (15, 4), (16, 6), (35, 6), (36, 8), (65535, 8)];
    for (players, gb) in cases {
        assert_eq!(ServerConfig::recommended_memory(players), gb);
    }
}

#[test]
fn defaults_are_valid() {
    assert_eq!(ServerConfig::default().validate(), Ok(()));
}

#[test]
fn each_rule_has_its_message() {
    let mut c = ServerConfig::default();
    c.name = " \t\u{3000}".to_string();
    assert_eq!(c.validate(), Err("Server name cannot be empty.".to_string()));
    let mut c = ServerConfig::default();
    c.max_players = 0;
    assert_eq!(c.validate(), Err("Choose at least one player.".to_string()));
    let mut c = ServerConfig::default();
    c.memory_gb = 0;
    assert_eq!(c.validate(), Err("Allocate at least 1 GB of memory.".to_string()));
    let mut c = ServerConfig::default();
    c.directory = String::new();
    assert_eq!(c.validate(), Err("Choose an install folder.".to_string()));
    let mut c = ServerConfig::default();
    c.port = 1023;
    assert_eq!(c.validate(), Err("Choose a server port from 1024 to 65535.".to_string()));
    c.port = 1024;
    assert_eq!(c.validate(), Ok(()));
    let mut c = ServerConfig::default();
    c.view_distance = 33;
    assert_eq!(c.validate(), Err("View distance must be between 2 and 32 chunks.".to_string()));
    let mut c = ServerConfig::default();
    c.simulation_distance = 1;
    assert_eq!(c.validate(), Err("Simulation distance must be between 2 and 32 chunks.".to_string()));
    c.simulation_distance = 2;
    c.view_distance = 32;
    assert_eq!(c.validate(), Ok(()));
}

#[test]
fn first_broken_rule_is_reported() {
    let mut c = ServerConfig::default();
    c.name = String::new();
    c.port = 1;
    assert_eq!(c.validate(), Err("Server name cannot be empty.".to_string()));
    c.name = "  x ".to_string();
    assert_eq!(c.validate(), Err("Choose a server port from 1024 to 65535.".to_string()));
}
