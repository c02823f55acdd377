use mcserver_setup::config::{GameMode, Runtime, ServerConfig};
use mcserver_setup::install::{install_files, GeneratedFile};

fn find<'a>(files: &'a [GeneratedFile], name: &str) -> Option<&'a GeneratedFile> {
    files.iter().find(|f| f.name == name)
}

#[test]
fn docker_install_writes_runnable_files() {
    let c = ServerConfig {
        directory: "server".to_string(),
        ..Default::default()
    };
    let files = install_files(&c, false).unwrap();
    assert!(find(&files, "compose.yml").is_some());
    assert!(find(&files, "compose.yml").unwrap().contents.contains("itzg/minecraft-server"));
}

#[test]
fn native_install_has_both_platform_scripts() {
    let c = ServerConfig {
        directory: "server".to_string(),
        runtime: Runtime::Native,
        ..Default::default()
    };
    let files = install_files(&c, false).unwrap();
    assert!(find(&files, "install-server.sh").is_some());
    assert!(find(&files, "install-server.ps1").is_some());
    assert!(find(&files, "compose.yml").is_none());
}

#[test]
fn advanced_settings_are_written_to_both_runtime_configs() {
    let c = ServerConfig {
        seed: "12345".to_string(),
        port: 25570,
        view_distance: 12,
        simulation_distance: 8,
        hardcore: true,
        allow_flight: true,
        command_blocks: true,
        max_world_size: 5000,
        spawn_protection: 4,
        ..Default::default()
    };
    let files = install_files(&c, false).unwrap();
    let props = &find(&files, "server.properties").unwrap().contents;
    for line in [
        "server-port=25570\n",
        "level-seed=12345\n",
        "view-distance=12\n",
        "simulation-distance=8\n",
        "hardcore=true\n",
        "allow-flight=true\n",
        "enable-command-block=true\n",
        "max-world-size=5000\n",
        "spawn-protection=4\n",
    ] {
        assert!(props.contains(line), "{line}");
    }
    let compose = &find(&files, "compose.yml").unwrap().contents;
    for line in [
        "      - \"25570:25565\"\n",
        "      SEED: \"12345\"\n",
        "      VIEW_DISTANCE: \"12\"\n",
        "      SIMULATION_DISTANCE: \"8\"\n",
        "      HARDCORE: \"true\"\n",
        "      ALLOW_FLIGHT: \"true\"\n",
        "      ENABLE_COMMAND_BLOCK: \"true\"\n",
        "      MAX_WORLD_SIZE: \"5000\"\n",
        "      SPAWN_PROTECTION: \"4\"\n",
    ] {
        assert!(compose.contains(line), "{line}");
    }
}

#[test]
fn default_files_read_exactly() {
    let c = ServerConfig::default();
    let files = install_files(&c, false).unwrap();
    let names: Vec<&str> = files.iter().map(|f| f.name.as_str()).collect();
    assert_eq!(names, vec!["server.properties", "eula.txt", "compose.yml"]);
    assert_eq!(files[1].contents, "eula=true\n");
    assert_eq!(
        files[0].contents,
        "motd=My Minecraft Server\nmax-players=10\ngamemode=survival\ndifficulty=normal\nonline-mode=true\nwhite-list=false\npvp=true\nserver-port=25565\nlevel-seed=\nview-distance=10\nsimulation-distance=10\nhardcore=false\nallow-flight=false\nenable-command-block=false\nmax-world-size=29999984\nspawn-protection=16\n"
    );
    assert_eq!(
        files[2].contents,
        "services:\n  minecraft:\n    image: itzg/minecraft-server:java21\n    container_name: minecraft-server\n    ports:\n      - \"25565:25565\"\n    environment:\n      EULA: \"TRUE\"\n      TYPE: PAPER\n      VERSION: \"LATEST\"\n      MEMORY: \"2G\"\n      MAX_PLAYERS: \"10\"\n      MODE: \"survival\"\n      DIFFICULTY: \"normal\"\n      ONLINE_MODE: \"true\"\n      ENABLE_WHITELIST: \"false\"\n      PVP: \"true\"\n      MOTD: \"My Minecraft Server\"\n      SEED: \"\"\n      VIEW_DISTANCE: \"10\"\n      SIMULATION_DISTANCE: \"10\"\n      HARDCORE: \"false\"\n      ALLOW_FLIGHT: \"false\"\n      ENABLE_COMMAND_BLOCK: \"false\"\n      MAX_WORLD_SIZE: \"29999984\"\n      SPAWN_PROTECTION: \"16\"\n    volumes:\n      - ./data:/data\n    restart: unless-stopped\n"
    );
}

#[test]
fn native_scripts_read_exactly() {
    let c = ServerConfig {
        runtime: Runtime::Native,
        memory_gb: 6,
        version: "1.21.8".to_string(),
        gamemode: GameMode::Creative,
        ..Default::default()
    };
    let files = install_files(&c, false).unwrap();
    assert_eq!(files.len(), 4);
    assert!(files[0].contents.contains("\ngamemode=creative\n"));
    assert_eq!(files[2].name, "install-server.sh");
    let expected_sh = r#"#!/usr/bin/env sh
set -eu
# Works on macOS, Ubuntu/Debian, Fedora, and Arch Linux. Requires Java 21+ and curl.
VERSION="1.21.8"
JAR=paper.jar
if [ "$VERSION" = LATEST ]; then VERSION=$(curl -fsSL https://api.papermc.io/v2/projects/paper | sed -n 's/.*"versions":\[.*"\([^"]*\)"\].*/\1/p'); fi
BUILD=$(curl -fsSL https://api.papermc.io/v2/projects/paper/versions/$VERSION | sed -n 's/.*"builds":\[.*\([0-9][0-9]*\)\].*/\1/p')
curl -fL "https://api.papermc.io/v2/projects/paper/versions/$VERSION/builds/$BUILD/downloads/paper-$VERSION-$BUILD.jar" -o $JAR
java -Xms6G -Xmx6G -jar $JAR --nogui
"#;
    assert_eq!(files[2].contents, expected_sh);
    assert_eq!(files[3].name, "install-server.ps1");
    assert_eq!(
        files[3].contents,
        "$ErrorActionPreference = 'Stop'\n# Requires Java 21+ and PowerShell 5+.\n$version = '1.21.8'\nif ($version -eq 'LATEST') { $version = (Invoke-RestMethod 'https://api.papermc.io/v2/projects/paper').versions[-1] }\n$build = (Invoke-RestMethod \"https://api.papermc.io/v2/projects/paper/versions/$version\").builds[-1]\nInvoke-WebRequest \"https://api.papermc.io/v2/projects/paper/versions/$version/builds/$build/downloads/paper-$version-$build.jar\" -OutFile paper.jar\njava -Xms6G -Xmx6G -jar paper.jar --nogui\n"
    );
}

#[test]
fn modes_are_lowercased_for_the_server() {
    for (mode, word) in [
        (GameMode::Survival, "survival"),
        (GameMode::Creative, "creative"),
        (GameMode::Adventure, "adventure"),
        (GameMode::Spectator, "spectator"),
    ] {
        let c = ServerConfig { gamemode: mode, ..Default::default() };
        let files = install_files(&c, false).unwrap();
        assert!(files[0].contents.contains(&format!("gamemode={word}\n")));
        assert!(files[2].contents.contains(&format!("MODE: \"{word}\"\n")));
    }
}

#[test]
fn occupied_folder_is_refused() {
    let c = ServerConfig::default();
    let err = install_files(&c, true).err().unwrap();
    assert_eq!(err, "Install directory is not empty: minecraft-server");
}

#[test]
fn invalid_settings_are_refused_before_the_folder_is_looked_at() {
    let c = ServerConfig { memory_gb: 0, ..Default::default() };
    assert_eq!(install_files(&c, true).err().unwrap(), "Allocate at least 1 GB of memory.");
    assert_eq!(install_files(&c, false).err().unwrap(), "Allocate at least 1 GB of memory.");
}
