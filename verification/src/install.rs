//! The files that make up a server setup, and the rules for creating them.

use vstd::prelude::*;
use vstd::string::*;
use crate::config::{ConfigView, GameMode, Runtime, ServerConfig, config_error, game_mode_label};
use crate::text::{bool_text, decimal, decimal_string, push_bool, push_decimal};

verus! {

/// What `str::to_lowercase` gives for a text: its Unicode lowercase mapping.
pub uninterp spec fn lowercase_of(s: Seq<char>) -> Seq<char>;

/// ASCII text with its capital letters made small and every other character
/// kept.
pub open spec fn ascii_lowercase(s: Seq<char>) -> Seq<char> {
    s.map_values(|c: char| if 'A' <= c <= 'Z' { ((c as u32) + 32) as char } else { c })
}

/// `std`'s `str::to_lowercase`. Claimed: the result is `lowercase_of` of the
/// argument, which depends on nothing else; and, for ASCII text, where the
/// Unicode lowercase mapping that the documentation names maps `A`..`Z` to
/// `a`..`z` and keeps every other character, it is that text lowercased.
#[verifier::external_body]
fn lowercase(s: &str) -> (r: String)
    ensures
        r@ == lowercase_of(s@),
        vstd::utf8::is_ascii_chars(s@) ==> r@ == ascii_lowercase(s@),
{
    s.to_lowercase()
}

/// The game mode as `server.properties` and the container image spell it.
pub open spec fn mode_key(c: ConfigView) -> Seq<char> {
    ascii_lowercase(game_mode_label(c.gamemode))
}

/// The game mode's label lowercased, as the server files write it.
fn mode_word(g: GameMode) -> (r: String)
    ensures
        r@ == ascii_lowercase(game_mode_label(g)),
{
    let label = g.label();
    proof {
        reveal_strlit("Survival");
        reveal_strlit("Creative");
        reveal_strlit("Adventure");
        reveal_strlit("Spectator");
        assert(vstd::utf8::is_ascii_chars(label@));
    }
    lowercase(label)
}

/// One setting on a line of its own: `indent`, the key, `sep`, the value and
/// a line break.
pub open spec fn setting_line(indent: Seq<char>, key: Seq<char>, sep: Seq<char>, value: Seq<char>) -> Seq<char> {
    indent + key + sep + value + "\n"@
}

/// Settings written one per line, in order.
pub open spec fn key_lines(entries: Seq<(Seq<char>, Seq<char>)>, indent: Seq<char>, sep: Seq<char>) -> Seq<char>
    decreases entries.len(),
{
    if entries.len() == 0 {
        Seq::empty()
    } else {
        key_lines(entries.drop_last(), indent, sep)
            + setting_line(indent, entries.last().0, sep, entries.last().1)
    }
}

/// The settings in `server.properties`, in the order they are written.
pub open spec fn property_entries(c: ConfigView) -> Seq<(Seq<char>, Seq<char>)> {
    seq![
        ("motd"@, c.name),
        ("max-players"@, decimal(c.max_players as nat)),
        ("gamemode"@, mode_key(c)),
        ("difficulty"@, c.difficulty),
        ("online-mode"@, bool_text(c.online_mode)),
        ("white-list"@, bool_text(c.whitelist)),
        ("pvp"@, bool_text(c.pvp)),
        ("server-port"@, decimal(c.port as nat)),
        ("level-seed"@, c.seed),
        ("view-distance"@, decimal(c.view_distance as nat)),
        ("simulation-distance"@, decimal(c.simulation_distance as nat)),
        ("hardcore"@, bool_text(c.hardcore)),
        ("allow-flight"@, bool_text(c.allow_flight)),
        ("enable-command-block"@, bool_text(c.command_blocks)),
        ("max-world-size"@, decimal(c.max_world_size as nat)),
        ("spawn-protection"@, decimal(c.spawn_protection as nat)),
    ]
}

/// The text of `server.properties`: one `key=value` line per setting.
pub open spec fn properties_text(c: ConfigView) -> Seq<char> {
    key_lines(property_entries(c), Seq::empty(), "="@)
}

/// A value in double quotes, as the Compose file writes most values.
pub open spec fn quoted(v: Seq<char>) -> Seq<char> {
    "\""@ + v + "\""@
}

/// The environment the container image reads its settings from, in the
/// order it is written.
pub open spec fn container_environment(c: ConfigView) -> Seq<(Seq<char>, Seq<char>)> {
    seq![
        ("EULA"@, quoted("TRUE"@)),
        ("TYPE"@, "PAPER"@),
        ("VERSION"@, quoted(c.version)),
        ("MEMORY"@, quoted(decimal(c.memory_gb as nat) + "G"@)),
        ("MAX_PLAYERS"@, quoted(decimal(c.max_players as nat))),
        ("MODE"@, quoted(mode_key(c))),
        ("DIFFICULTY"@, quoted(c.difficulty)),
        ("ONLINE_MODE"@, quoted(bool_text(c.online_mode))),
        ("ENABLE_WHITELIST"@, quoted(bool_text(c.whitelist))),
        ("PVP"@, quoted(bool_text(c.pvp))),
        ("MOTD"@, quoted(c.name)),
        ("SEED"@, quoted(c.seed)),
        ("VIEW_DISTANCE"@, quoted(decimal(c.view_distance as nat))),
        ("SIMULATION_DISTANCE"@, quoted(decimal(c.simulation_distance as nat))),
        ("HARDCORE"@, quoted(bool_text(c.hardcore))),
        ("ALLOW_FLIGHT"@, quoted(bool_text(c.allow_flight))),
        ("ENABLE_COMMAND_BLOCK"@, quoted(bool_text(c.command_blocks))),
        ("MAX_WORLD_SIZE"@, quoted(decimal(c.max_world_size as nat))),
        ("SPAWN_PROTECTION"@, quoted(decimal(c.spawn_protection as nat))),
    ]
}

/// The opening of every `compose.yml`: the service and its image.
pub open spec fn compose_head() -> Seq<char> {
    "services:\n  minecraft:\n    image: itzg/minecraft-server:java21\n    container_name: minecraft-server\n"@
}

/// The line that publishes the chosen port on the container's port.
pub open spec fn port_line(c: ConfigView) -> Seq<char> {
    "      - \""@ + decimal(c.port as nat) + ":25565\"\n"@
}

/// The text of `compose.yml`: the maintained server image, the chosen port
/// published on the container's, the environment, and the data volume.
pub open spec fn compose_text(c: ConfigView) -> Seq<char> {
    compose_head() + "    ports:\n"@ + port_line(c) + "    environment:\n"@
        + key_lines(container_environment(c), "      "@, ": "@)
        + "    volumes:\n      - ./data:/data\n    restart: unless-stopped\n"@
}

/// The opening of `install-server.sh`, up to the chosen version.
pub open spec fn unix_head() -> Seq<char> {
    r#"#!/usr/bin/env sh
set -eu
# Works on macOS, Ubuntu/Debian, Fedora, and Arch Linux. Requires Java 21+ and curl.
VERSION=""#@
}

/// The text of `install-server.sh`.
pub open spec fn unix_installer_text(c: ConfigView) -> Seq<char> {
    unix_head() + c.version + r#""
JAR=paper.jar
if [ "$VERSION" = LATEST ]; then VERSION=$(curl -fsSL https://api.papermc.io/v2/projects/paper | sed -n 's/.*"versions":\[.*"\([^"]*\)"\].*/\1/p'); fi
BUILD=$(curl -fsSL https://api.papermc.io/v2/projects/paper/versions/$VERSION | sed -n 's/.*"builds":\[.*\([0-9][0-9]*\)\].*/\1/p')
curl -fL "https://api.papermc.io/v2/projects/paper/versions/$VERSION/builds/$BUILD/downloads/paper-$VERSION-$BUILD.jar" -o $JAR
java -Xms"#@ + decimal(c.memory_gb as nat) + "G -Xmx"@ + decimal(c.memory_gb as nat)
        + "G -jar $JAR --nogui\n"@
}

/// The opening of `install-server.ps1`, up to the chosen version.
pub open spec fn windows_head() -> Seq<char> {
    "$ErrorActionPreference = 'Stop'\n# Requires Java 21+ and PowerShell 5+.\n$version = '"@
}

/// The text of `install-server.ps1`.
pub open spec fn windows_installer_text(c: ConfigView) -> Seq<char> {
    windows_head() + c.version
        + "'\nif ($version -eq 'LATEST') { $version = (Invoke-RestMethod 'https://api.papermc.io/v2/projects/paper').versions[-1] }\n$build = (Invoke-RestMethod \"https://api.papermc.io/v2/projects/paper/versions/$version\").builds[-1]\nInvoke-WebRequest \"https://api.papermc.io/v2/projects/paper/versions/$version/builds/$build/downloads/paper-$version-$build.jar\" -OutFile paper.jar\njava -Xms"@
        + decimal(c.memory_gb as nat) + "G -Xmx"@ + decimal(c.memory_gb as nat)
        + "G -jar paper.jar --nogui\n"@
}

/// What `eula.txt` holds: acceptance of Minecraft's EULA.
pub open spec fn eula_text() -> Seq<char> {
    "eula=true\n"@
}

/// The views of a list of settings.
pub open spec fn entries_view(entries: Seq<(&str, String)>) -> Seq<(Seq<char>, Seq<char>)> {
    entries.map_values(|e: (&str, String)| (e.0@, e.1@))
}

fn write_lines(s: &mut String, entries: &Vec<(&str, String)>, indent: &str, sep: &str)
    ensures
        final(s)@ == old(s)@ + key_lines(entries_view(entries@), indent@, sep@),
{
    let ghost start = s@;
    let ghost all = entries_view(entries@);
    let mut i: usize = 0;
    assert(all.take(0) =~= Seq::<(Seq<char>, Seq<char>)>::empty());
    assert(start + key_lines(all.take(0), indent@, sep@) =~= start);
    while i < entries.len()
        invariant
            i <= entries@.len(),
            all == entries_view(entries@),
            s@ == start + key_lines(all.take(i as int), indent@, sep@),
        decreases entries.len() - i,
    {
        let ghost before = s@;
        s.append(indent);
        s.append(entries[i].0);
        s.append(sep);
        s.append(entries[i].1.as_str());
        s.append("\n");
        proof {
            assert(all.take(i + 1).drop_last() =~= all.take(i as int));
            assert(all.take(i + 1).last() == all[i as int]);
            assert(s@ =~= start + key_lines(all.take(i + 1), indent@, sep@));
        }
        i = i + 1;
    }
    assert(all.take(entries@.len() as int) =~= all);
}

fn bool_string(b: bool) -> (s: String)
    ensures
        s@ == bool_text(b),
{
    let mut s = String::new();
    push_bool(&mut s, b);
    s
}

fn quote(v: &str) -> (s: String)
    ensures
        s@ == quoted(v@),
{
    let mut s = String::from_str("\"");
    s.append(v);
    s.append("\"");
    s
}

fn server_properties(c: &ServerConfig) -> (s: String)
    ensures
        s@ == properties_text(c@),
{
    let mut entries: Vec<(&str, String)> = Vec::new();
    entries.push(("motd", c.name.clone()));
    entries.push(("max-players", decimal_string(c.max_players as u32)));
    entries.push(("gamemode", mode_word(c.gamemode)));
    entries.push(("difficulty", c.difficulty.clone()));
    entries.push(("online-mode", bool_string(c.online_mode)));
    entries.push(("white-list", bool_string(c.whitelist)));
    entries.push(("pvp", bool_string(c.pvp)));
    entries.push(("server-port", decimal_string(c.port as u32)));
    entries.push(("level-seed", c.seed.clone()));
    entries.push(("view-distance", decimal_string(c.view_distance as u32)));
    entries.push(("simulation-distance", decimal_string(c.simulation_distance as u32)));
    entries.push(("hardcore", bool_string(c.hardcore)));
    entries.push(("allow-flight", bool_string(c.allow_flight)));
    entries.push(("enable-command-block", bool_string(c.command_blocks)));
    entries.push(("max-world-size", decimal_string(c.max_world_size)));
    entries.push(("spawn-protection", decimal_string(c.spawn_protection as u32)));
    assert(entries_view(entries@) =~= property_entries(c@));
    let mut s = String::new();
    write_lines(&mut s, &entries, "", "=");
    proof {
        reveal_strlit("");
        assert(""@ =~= Seq::<char>::empty());
        assert(s@ =~= properties_text(c@));
    }
    s
}

fn compose(c: &ServerConfig) -> (s: String)
    ensures
        s@ == compose_text(c@),
{
    let mut memory = decimal_string(c.memory_gb as u32);
    memory.append("G");
    let mut env: Vec<(&str, String)> = Vec::new();
    env.push(("EULA", quote("TRUE")));
    env.push(("TYPE", String::from_str("PAPER")));
    env.push(("VERSION", quote(c.version.as_str())));
    env.push(("MEMORY", quote(memory.as_str())));
    env.push(("MAX_PLAYERS", quote(decimal_string(c.max_players as u32).as_str())));
    env.push(("MODE", quote(mode_word(c.gamemode).as_str())));
    env.push(("DIFFICULTY", quote(c.difficulty.as_str())));
    env.push(("ONLINE_MODE", quote(bool_string(c.online_mode).as_str())));
    env.push(("ENABLE_WHITELIST", quote(bool_string(c.whitelist).as_str())));
    env.push(("PVP", quote(bool_string(c.pvp).as_str())));
    env.push(("MOTD", quote(c.name.as_str())));
    env.push(("SEED", quote(c.seed.as_str())));
    env.push(("VIEW_DISTANCE", quote(decimal_string(c.view_distance as u32).as_str())));
    env.push(("SIMULATION_DISTANCE", quote(decimal_string(c.simulation_distance as u32).as_str())));
    env.push(("HARDCORE", quote(bool_string(c.hardcore).as_str())));
    env.push(("ALLOW_FLIGHT", quote(bool_string(c.allow_flight).as_str())));
    env.push(("ENABLE_COMMAND_BLOCK", quote(bool_string(c.command_blocks).as_str())));
    env.push(("MAX_WORLD_SIZE", quote(decimal_string(c.max_world_size).as_str())));
    env.push(("SPAWN_PROTECTION", quote(decimal_string(c.spawn_protection as u32).as_str())));
    assert(entries_view(env@) =~= container_environment(c@));
    let mut port = String::from_str("      - \"");
    push_decimal(&mut port, c.port as u32);
    port.append(":25565\"\n");
    let mut s = String::from_str("services:\n  minecraft:\n    image: itzg/minecraft-server:java21\n    container_name: minecraft-server\n");
    s.append("    ports:\n");
    s.append(port.as_str());
    s.append("    environment:\n");
    write_lines(&mut s, &env, "      ", ": ");
    s.append("    volumes:\n      - ./data:/data\n    restart: unless-stopped\n");
    s
}

fn unix_installer(c: &ServerConfig) -> (s: String)
    ensures
        s@ == unix_installer_text(c@),
{
    let mut s = String::new();
    s.append(r#"#!/usr/bin/env sh
set -eu
# Works on macOS, Ubuntu/Debian, Fedora, and Arch Linux. Requires Java 21+ and curl.
VERSION=""#);
    s.append(c.version.as_str());
    s.append(r#""
JAR=paper.jar
if [ "$VERSION" = LATEST ]; then VERSION=$(curl -fsSL https://api.papermc.io/v2/projects/paper | sed -n 's/.*"versions":\[.*"\([^"]*\)"\].*/\1/p'); fi
BUILD=$(curl -fsSL https://api.papermc.io/v2/projects/paper/versions/$VERSION | sed -n 's/.*"builds":\[.*\([0-9][0-9]*\)\].*/\1/p')
curl -fL "https://api.papermc.io/v2/projects/paper/versions/$VERSION/builds/$BUILD/downloads/paper-$VERSION-$BUILD.jar" -o $JAR
java -Xms"#);
    push_decimal(&mut s, c.memory_gb as u32);
    s.append("G -Xmx");
    push_decimal(&mut s, c.memory_gb as u32);
    s.append("G -jar $JAR --nogui\n");
    s
}

fn windows_installer(c: &ServerConfig) -> (s: String)
    ensures
        s@ == windows_installer_text(c@),
{
    let mut s = String::new();
    s.append("$ErrorActionPreference = 'Stop'\n# Requires Java 21+ and PowerShell 5+.\n$version = '");
    s.append(c.version.as_str());
    s.append("'\nif ($version -eq 'LATEST') { $version = (Invoke-RestMethod 'https://api.papermc.io/v2/projects/paper').versions[-1] }\n$build = (Invoke-RestMethod \"https://api.papermc.io/v2/projects/paper/versions/$version\").builds[-1]\nInvoke-WebRequest \"https://api.papermc.io/v2/projects/paper/versions/$version/builds/$build/downloads/paper-$version-$build.jar\" -OutFile paper.jar\njava -Xms");
    push_decimal(&mut s, c.memory_gb as u32);
    s.append("G -Xmx");
    push_decimal(&mut s, c.memory_gb as u32);
    s.append("G -jar paper.jar --nogui\n");
    s
}

/// A file of the setup: its name inside the install folder, and its text.
pub struct GeneratedFile {
    pub name: String,
    pub contents: String,
}

impl View for GeneratedFile {
    type V = (Seq<char>, Seq<char>);

    open spec fn view(&self) -> (Seq<char>, Seq<char>) {
        (self.name@, self.contents@)
    }
}

/// The files that start the server: a Compose file for Docker, or an
/// installer script for each platform for a native Java install.
pub open spec fn runtime_files(c: ConfigView) -> Seq<(Seq<char>, Seq<char>)> {
    match c.runtime {
        Runtime::Docker => seq![("compose.yml"@, compose_text(c))],
        Runtime::Native => seq![
            ("install-server.sh"@, unix_installer_text(c)),
            ("install-server.ps1"@, windows_installer_text(c)),
        ],
    }
}

/// The files of a setup, in the order they are written: the server
/// properties, the EULA acceptance, then the runtime's files. (The settings
/// file `mcserver.toml` is written between the EULA and the runtime files by
/// the caller, which holds the serialiser.)
pub open spec fn planned_files(c: ConfigView) -> Seq<(Seq<char>, Seq<char>)> {
    seq![("server.properties"@, properties_text(c)), ("eula.txt"@, eula_text())]
        + runtime_files(c)
}

/// The message that refuses an install folder that already holds something.
pub open spec fn folder_in_use(c: ConfigView) -> Seq<char> {
    "Install directory is not empty: "@ + c.directory
}

/// What an install gives: the error of an invalid configuration first, then
/// the refusal of a folder that already holds entries, and else the files.
pub open spec fn install_outcome(c: ConfigView, folder_has_entries: bool) -> Result<
    Seq<(Seq<char>, Seq<char>)>,
    Seq<char>,
> {
    match config_error(c) {
        Some(e) => Err(e),
        None => if folder_has_entries {
            Err(folder_in_use(c))
        } else {
            Ok(planned_files(c))
        },
    }
}

/// The views of a list of files.
pub open spec fn files_view(files: Seq<GeneratedFile>) -> Seq<(Seq<char>, Seq<char>)> {
    files.map_values(|f: GeneratedFile| f@)
}

fn file(name: &str, contents: String) -> (f: GeneratedFile)
    ensures
        f@ == (name@, contents@),
{
    GeneratedFile { name: name.to_owned(), contents }
}

/// Decides what installing `config` into a folder writes, where
/// `folder_has_entries` says whether the folder exists and holds anything.
pub fn install_files(config: &ServerConfig, folder_has_entries: bool) -> (r: Result<
    Vec<GeneratedFile>,
    String,
>)
    ensures
        r is Ok <==> install_outcome(config@, folder_has_entries) is Ok,
        r matches Ok(files) ==> install_outcome(config@, folder_has_entries) == Ok::<
            Seq<(Seq<char>, Seq<char>)>,
            Seq<char>,
        >(files_view(files@)),
        r matches Err(e) ==> install_outcome(config@, folder_has_entries) == Err::<
            Seq<(Seq<char>, Seq<char>)>,
            Seq<char>,
        >(e@),
{
    match config.validate() {
        Err(e) => {
            return Err(e);
        },
        Ok(()) => {},
    }
    if folder_has_entries {
        let mut msg = String::from_str("Install directory is not empty: ");
        msg.append(config.directory.as_str());
        return Err(msg);
    }
    let mut files: Vec<GeneratedFile> = Vec::new();
    files.push(file("server.properties", server_properties(config)));
    files.push(file("eula.txt", String::from_str("eula=true\n")));
    match config.runtime {
        Runtime::Docker => {
            files.push(file("compose.yml", compose(config)));
        },
        Runtime::Native => {
            files.push(file("install-server.sh", unix_installer(config)));
            files.push(file("install-server.ps1", windows_installer(config)));
        },
    }
    assert(files_view(files@) =~= planned_files(config@));
    Ok(files)
}

} // verus!
