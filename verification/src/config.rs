//! The server settings that the wizard collects, and the rules they must meet.

use vstd::prelude::*;
use vstd::string::*;
use crate::text::{blank, is_blank};

verus! {

/// How the server is run.
#[derive(Clone, Copy, Debug, Eq)]
pub enum Runtime {
    Docker,
    Native,
}

impl PartialEq for Runtime {
    fn eq(&self, other: &Self) -> (r: bool) {
        match (self, other) {
            (Runtime::Docker, Runtime::Docker) => true,
            (Runtime::Native, Runtime::Native) => true,
            _ => false,
        }
    }
}

impl vstd::std_specs::cmp::PartialEqSpecImpl for Runtime {
    open spec fn obeys_eq_spec() -> bool {
        true
    }

    open spec fn eq_spec(&self, other: &Self) -> bool {
        *self == *other
    }
}

impl Default for Runtime {
    fn default() -> (r: Self)
        ensures
            r == Runtime::Docker,
    {
        Runtime::Docker
    }
}

/// What `Runtime::label` shows for each runtime.
pub open spec fn runtime_label(r: Runtime) -> Seq<char> {
    match r {
        Runtime::Docker => "Docker Compose"@,
        Runtime::Native => "Native Java"@,
    }
}

impl Runtime {
    /// The name the wizard shows for this runtime.
    pub fn label(self) -> (s: &'static str)
        ensures
            s@ == runtime_label(self),
    {
        match self {
            Runtime::Docker => "Docker Compose",
            Runtime::Native => "Native Java",
        }
    }
}

/// The game mode players start in.
#[derive(Clone, Copy, Debug, Eq)]
pub enum GameMode {
    Survival,
    Creative,
    Adventure,
    Spectator,
}

impl PartialEq for GameMode {
    fn eq(&self, other: &Self) -> (r: bool) {
        match (self, other) {
            (GameMode::Survival, GameMode::Survival) => true,
            (GameMode::Creative, GameMode::Creative) => true,
            (GameMode::Adventure, GameMode::Adventure) => true,
            (GameMode::Spectator, GameMode::Spectator) => true,
            _ => false,
        }
    }
}

impl vstd::std_specs::cmp::PartialEqSpecImpl for GameMode {
    open spec fn obeys_eq_spec() -> bool {
        true
    }

    open spec fn eq_spec(&self, other: &Self) -> bool {
        *self == *other
    }
}

impl Default for GameMode {
    fn default() -> (g: Self)
        ensures
            g == GameMode::Survival,
    {
        GameMode::Survival
    }
}

/// What `GameMode::label` shows for each game mode.
pub open spec fn game_mode_label(g: GameMode) -> Seq<char> {
    match g {
        GameMode::Survival => "Survival"@,
        GameMode::Creative => "Creative"@,
        GameMode::Adventure => "Adventure"@,
        GameMode::Spectator => "Spectator"@,
    }
}

impl GameMode {
    /// The name the wizard shows for this game mode.
    pub fn label(self) -> (s: &'static str)
        ensures
            s@ == game_mode_label(self),
    {
        match self {
            GameMode::Survival => "Survival",
            GameMode::Creative => "Creative",
            GameMode::Adventure => "Adventure",
            GameMode::Spectator => "Spectator",
        }
    }
}

/// Everything the wizard asks for. The install folder is held as the text of
/// its path.
#[derive(Clone, Debug)]
pub struct ServerConfig {
    pub name: String,
    pub directory: String,
    pub motd: String,
    pub seed: String,
    pub max_players: u16,
    pub memory_gb: u8,
    pub version: String,
    pub runtime: Runtime,
    pub gamemode: GameMode,
    pub difficulty: String,
    pub online_mode: bool,
    pub whitelist: bool,
    pub pvp: bool,
    pub port: u16,
    pub view_distance: u8,
    pub simulation_distance: u8,
    pub hardcore: bool,
    pub allow_flight: bool,
    pub command_blocks: bool,
    pub max_world_size: u32,
    pub spawn_protection: u16,
}

/// A `ServerConfig` with each text taken as its characters.
#[verifier::ext_equal]
pub struct ConfigView {
    pub name: Seq<char>,
    pub directory: Seq<char>,
    pub motd: Seq<char>,
    pub seed: Seq<char>,
    pub max_players: u16,
    pub memory_gb: u8,
    pub version: Seq<char>,
    pub runtime: Runtime,
    pub gamemode: GameMode,
    pub difficulty: Seq<char>,
    pub online_mode: bool,
    pub whitelist: bool,
    pub pvp: bool,
    pub port: u16,
    pub view_distance: u8,
    pub simulation_distance: u8,
    pub hardcore: bool,
    pub allow_flight: bool,
    pub command_blocks: bool,
    pub max_world_size: u32,
    pub spawn_protection: u16,
}

impl View for ServerConfig {
    type V = ConfigView;

    open spec fn view(&self) -> ConfigView {
        ConfigView {
            name: self.name@,
            directory: self.directory@,
            motd: self.motd@,
            seed: self.seed@,
            max_players: self.max_players,
            memory_gb: self.memory_gb,
            version: self.version@,
            runtime: self.runtime,
            gamemode: self.gamemode,
            difficulty: self.difficulty@,
            online_mode: self.online_mode,
            whitelist: self.whitelist,
            pvp: self.pvp,
            port: self.port,
            view_distance: self.view_distance,
            simulation_distance: self.simulation_distance,
            hardcore: self.hardcore,
            allow_flight: self.allow_flight,
            command_blocks: self.command_blocks,
            max_world_size: self.max_world_size,
            spawn_protection: self.spawn_protection,
        }
    }
}

/// The settings a first-time user starts from.
pub open spec fn default_config() -> ConfigView {
    ConfigView {
        name: "My Minecraft Server"@,
        directory: "minecraft-server"@,
        motd: "A Minecraft Server"@,
        seed: Seq::empty(),
        max_players: 10,
        memory_gb: 2,
        version: "LATEST"@,
        runtime: Runtime::Docker,
        gamemode: GameMode::Survival,
        difficulty: "normal"@,
        online_mode: true,
        whitelist: false,
        pvp: true,
        port: 25565,
        view_distance: 10,
        simulation_distance: 10,
        hardcore: false,
        allow_flight: false,
        command_blocks: false,
        max_world_size: 29_999_984,
        spawn_protection: 16,
    }
}

impl Default for ServerConfig {
    fn default() -> (c: Self)
        ensures
            c@ == default_config(),
    {
        ServerConfig {
            name: String::from_str("My Minecraft Server"),
            directory: String::from_str("minecraft-server"),
            motd: String::from_str("A Minecraft Server"),
            seed: String::new(),
            max_players: 10,
            memory_gb: 2,
            version: String::from_str("LATEST"),
            runtime: Runtime::Docker,
            gamemode: GameMode::Survival,
            difficulty: String::from_str("normal"),
            online_mode: true,
            whitelist: false,
            pvp: true,
            port: 25565,
            view_distance: 10,
            simulation_distance: 10,
            hardcore: false,
            allow_flight: false,
            command_blocks: false,
            max_world_size: 29_999_984,
            spawn_protection: 16,
        }
    }
}

/// The memory, in GB, suggested for a number of players: 2 up to 5 players,
/// 4 up to 15, 6 up to 35, and 8 beyond.
pub open spec fn memory_for(players: u16) -> u8 {
    if players <= 5 {
        2
    } else if players <= 15 {
        4
    } else if players <= 35 {
        6
    } else {
        8
    }
}

/// Why a configuration cannot be installed: the first rule it breaks, in the
/// order the wizard checks them, or `None` when it breaks none.
pub open spec fn config_error(c: ConfigView) -> Option<Seq<char>> {
    if is_blank(c.name) {
        Some("Server name cannot be empty."@)
    } else if c.max_players == 0 {
        Some("Choose at least one player."@)
    } else if c.memory_gb == 0 {
        Some("Allocate at least 1 GB of memory."@)
    } else if c.directory.len() == 0 {
        Some("Choose an install folder."@)
    } else if c.port < 1024 {
        Some("Choose a server port from 1024 to 65535."@)
    } else if !(2 <= c.view_distance <= 32) {
        Some("View distance must be between 2 and 32 chunks."@)
    } else if !(2 <= c.simulation_distance <= 32) {
        Some("Simulation distance must be between 2 and 32 chunks."@)
    } else {
        None
    }
}

impl ServerConfig {
    /// The memory, in GB, to allocate for `players` players.
    pub fn recommended_memory(players: u16) -> (gb: u8)
        ensures
            gb == memory_for(players),
    {
        if players <= 5 {
            2
        } else if players <= 15 {
            4
        } else if players <= 35 {
            6
        } else {
            8
        }
    }

    /// Checks the settings; on failure, the message names the first rule broken.
    pub fn validate(&self) -> (r: Result<(), String>)
        ensures
            r is Ok <==> config_error(self@) is None,
            r matches Err(msg) ==> config_error(self@) == Some(msg@),
    {
        if blank(self.name.as_str()) {
            return Err(String::from_str("Server name cannot be empty."));
        }
        if self.max_players == 0 {
            return Err(String::from_str("Choose at least one player."));
        }
        if self.memory_gb == 0 {
            return Err(String::from_str("Allocate at least 1 GB of memory."));
        }
        if self.directory.as_str().is_empty() {
            return Err(String::from_str("Choose an install folder."));
        }
        if self.port < 1024 {
            return Err(String::from_str("Choose a server port from 1024 to 65535."));
        }
        if !(2 <= self.view_distance && self.view_distance <= 32) {
            return Err(String::from_str("View distance must be between 2 and 32 chunks."));
        }
        if !(2 <= self.simulation_distance && self.simulation_distance <= 32) {
            return Err(String::from_str("Simulation distance must be between 2 and 32 chunks."));
        }
        Ok(())
    }
}

} // verus!
