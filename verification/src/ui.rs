//! The words on each screen of the wizard. Drawing them is left to the
//! terminal front end.

use vstd::prelude::*;
use vstd::string::*;
use crate::app::{App, Field, Page, field_at, fields, is_text_field, row_field};
use crate::config::{ConfigView, Runtime, ServerConfig, game_mode_label, runtime_label};
use crate::text::{decimal, decimal_string, push_char, push_decimal};

verus! {

/// How a yes-or-no setting reads.
pub open spec fn yes_no_text(value: bool) -> Seq<char> {
    if value { "Yes"@ } else { "No"@ }
}

/// A yes-or-no setting as the wizard shows it.
pub fn yes_no(value: bool) -> (s: String)
    ensures
        s@ == yes_no_text(value),
{
    if value {
        String::from_str("Yes")
    } else {
        String::from_str("No")
    }
}

/// The key help shown at the foot of each page.
pub open spec fn help_line(page: Page) -> Seq<char> {
    match page {
        Page::Welcome => "Enter  start setup     Q  quit"@,
        Page::Configure => "↑↓ choose  ←→ change  E edit text fields  Enter review  Q quit"@,
        Page::Review => "Enter  create server     B  back     Q  quit"@,
        Page::Complete => "Enter / Q  finish"@,
    }
}

/// The key help for `page`.
pub fn help_text(page: Page) -> (s: &'static str)
    ensures
        s@ == help_line(page),
{
    match page {
        Page::Welcome => "Enter  start setup     Q  quit",
        Page::Configure => "↑↓ choose  ←→ change  E edit text fields  Enter review  Q quit",
        Page::Review => "Enter  create server     B  back     Q  quit",
        Page::Complete => "Enter / Q  finish",
    }
}

/// The hint under the settings for the row the cursor is on.
pub open spec fn tip_line(selected: usize) -> Seq<char> {
    let f = row_field(selected as int);
    if is_text_field(f) {
        "Press E to edit server name, folder, MOTD, or world seed."@
    } else if f == Some(Field::Players) {
        "Memory is automatically suggested from player count; you can override it."@
    } else {
        "Use left/right arrows to adjust the selected option."@
    }
}

/// The hint for the row `selected`.
pub fn tip_text(selected: usize) -> (s: &'static str)
    ensures
        s@ == tip_line(selected),
{
    match field_at(selected) {
        Some(Field::Name) | Some(Field::Folder) | Some(Field::Motd) | Some(Field::Seed) => {
            "Press E to edit server name, folder, MOTD, or world seed."
        },
        Some(Field::Players) => {
            "Memory is automatically suggested from player count; you can override it."
        },
        _ => "Use left/right arrows to adjust the selected option.",
    }
}

/// What marks the row the cursor is on.
pub open spec fn cursor_line(chosen: bool) -> Seq<char> {
    if chosen { "❯ "@ } else { "  "@ }
}

/// The mark in front of a settings row.
pub fn cursor_mark(chosen: bool) -> (s: &'static str)
    ensures
        s@ == cursor_line(chosen),
{
    if chosen {
        "❯ "
    } else {
        "  "
    }
}

/// `n` spaces.
pub open spec fn spaces(n: nat) -> Seq<char> {
    Seq::new(n, |i: int| ' ')
}

/// A row label left-aligned in a column 24 characters wide, as
/// `format!("{label:<24}")` writes it: longer labels stay whole.
pub open spec fn label_column(label: Seq<char>) -> Seq<char> {
    if label.len() < 24 {
        label + spaces((24 - label.len()) as nat)
    } else {
        label
    }
}

/// A row label padded to its column.
pub fn label_cell(label: &str) -> (s: String)
    ensures
        s@ == label_column(label@),
{
    let n = label.unicode_len();
    let mut s = label.to_owned();
    let mut k: usize = n;
    while k < 24
        invariant
            n == label@.len(),
            n <= k <= 24 || (n > 24 && k == n),
            k < 24 ==> n <= k,
            s@ == label@ + spaces((k - n) as nat),
        decreases 24 - k,
    {
        push_char(&mut s, ' ');
        k = k + 1;
        assert(s@ =~= label@ + spaces((k - n) as nat));
    }
    assert(n >= 24 ==> s@ =~= label@);
    s
}

/// The seed as shown: "Random" when none is set.
pub open spec fn seed_shown(c: ConfigView) -> Seq<char> {
    if c.seed.len() == 0 { "Random"@ } else { c.seed }
}

/// The name of a settings row.
pub open spec fn label_of(f: Field) -> Seq<char> {
    match f {
        Field::Name => "Server name"@,
        Field::Folder => "Install folder"@,
        Field::Players => "Expected players"@,
        Field::Memory => "Memory allocation"@,
        Field::HowToRun => "How to run"@,
        Field::Mode => "Game mode"@,
        Field::Difficulty => "Difficulty"@,
        Field::Authentication => "Online authentication"@,
        Field::Whitelist => "Whitelist"@,
        Field::Combat => "Player combat"@,
        Field::Version => "Minecraft version"@,
        Field::Motd => "Server message (MOTD)"@,
        Field::Seed => "World seed"@,
        Field::Port => "Server port"@,
        Field::ViewDistance => "View distance"@,
        Field::SimulationDistance => "Simulation distance"@,
        Field::Hardcore => "Hardcore world"@,
        Field::Flight => "Allow flight"@,
        Field::CommandBlocks => "Command blocks"@,
        Field::WorldSize => "Max world size"@,
        Field::SpawnProtection => "Spawn protection"@,
        Field::Continue => "Continue"@,
    }
}

/// The value a settings row shows.
pub open spec fn value_of(c: ConfigView, f: Field) -> Seq<char> {
    match f {
        Field::Name => c.name,
        Field::Folder => c.directory,
        Field::Players => decimal(c.max_players as nat) + " players"@,
        Field::Memory => decimal(c.memory_gb as nat) + " GB"@,
        Field::HowToRun => runtime_label(c.runtime),
        Field::Mode => game_mode_label(c.gamemode),
        Field::Difficulty => c.difficulty,
        Field::Authentication => yes_no_text(c.online_mode),
        Field::Whitelist => yes_no_text(c.whitelist),
        Field::Combat => yes_no_text(c.pvp),
        Field::Version => c.version,
        Field::Motd => c.motd,
        Field::Seed => seed_shown(c),
        Field::Port => decimal(c.port as nat),
        Field::ViewDistance => decimal(c.view_distance as nat) + " chunks"@,
        Field::SimulationDistance => decimal(c.simulation_distance as nat) + " chunks"@,
        Field::Hardcore => yes_no_text(c.hardcore),
        Field::Flight => yes_no_text(c.allow_flight),
        Field::CommandBlocks => yes_no_text(c.command_blocks),
        Field::WorldSize => decimal(c.max_world_size as nat),
        Field::SpawnProtection => decimal(c.spawn_protection as nat) + " blocks"@,
        Field::Continue => "Review & create →"@,
    }
}

/// The names of the settings rows, top to bottom.
pub open spec fn setting_labels() -> Seq<Seq<char>> {
    fields().map_values(|f: Field| label_of(f))
}

/// The values of the settings rows, top to bottom.
pub open spec fn setting_values(c: ConfigView) -> Seq<Seq<char>> {
    fields().map_values(|f: Field| value_of(c, f))
}

/// The name of the row for `f`.
pub fn field_label(f: Field) -> (s: &'static str)
    ensures
        s@ == label_of(f),
{
    match f {
        Field::Name => "Server name",
        Field::Folder => "Install folder",
        Field::Players => "Expected players",
        Field::Memory => "Memory allocation",
        Field::HowToRun => "How to run",
        Field::Mode => "Game mode",
        Field::Difficulty => "Difficulty",
        Field::Authentication => "Online authentication",
        Field::Whitelist => "Whitelist",
        Field::Combat => "Player combat",
        Field::Version => "Minecraft version",
        Field::Motd => "Server message (MOTD)",
        Field::Seed => "World seed",
        Field::Port => "Server port",
        Field::ViewDistance => "View distance",
        Field::SimulationDistance => "Simulation distance",
        Field::Hardcore => "Hardcore world",
        Field::Flight => "Allow flight",
        Field::CommandBlocks => "Command blocks",
        Field::WorldSize => "Max world size",
        Field::SpawnProtection => "Spawn protection",
        Field::Continue => "Continue",
    }
}

fn number_with(n: u32, unit: &str) -> (s: String)
    ensures
        s@ == decimal(n as nat) + unit@,
{
    let mut s = String::new();
    push_decimal(&mut s, n);
    s.append(unit);
    proof {
        assert(s@ =~= decimal(n as nat) + unit@);
    }
    s
}

/// The value the row for `f` shows for the settings `c`.
pub fn field_value(c: &ServerConfig, f: Field) -> (s: String)
    ensures
        s@ == value_of(c@, f),
{
    match f {
        Field::Name => c.name.clone(),
        Field::Folder => c.directory.clone(),
        Field::Players => number_with(c.max_players as u32, " players"),
        Field::Memory => number_with(c.memory_gb as u32, " GB"),
        Field::HowToRun => String::from_str(c.runtime.label()),
        Field::Mode => String::from_str(c.gamemode.label()),
        Field::Difficulty => c.difficulty.clone(),
        Field::Authentication => yes_no(c.online_mode),
        Field::Whitelist => yes_no(c.whitelist),
        Field::Combat => yes_no(c.pvp),
        Field::Version => c.version.clone(),
        Field::Motd => c.motd.clone(),
        Field::Seed => if c.seed.as_str().is_empty() {
            String::from_str("Random")
        } else {
            c.seed.clone()
        },
        Field::Port => decimal_string(c.port as u32),
        Field::ViewDistance => number_with(c.view_distance as u32, " chunks"),
        Field::SimulationDistance => number_with(c.simulation_distance as u32, " chunks"),
        Field::Hardcore => yes_no(c.hardcore),
        Field::Flight => yes_no(c.allow_flight),
        Field::CommandBlocks => yes_no(c.command_blocks),
        Field::WorldSize => decimal_string(c.max_world_size),
        Field::SpawnProtection => number_with(c.spawn_protection as u32, " blocks"),
        Field::Continue => String::from_str("Review & create →"),
    }
}

/// The names of the settings rows, top to bottom.
pub fn field_labels() -> (labels: Vec<&'static str>)
    ensures
        labels@.map_values(|l: &str| l@) == setting_labels(),
{
    let mut labels: Vec<&'static str> = Vec::new();
    let mut i: usize = 0;
    while i < App::FIELD_COUNT
        invariant
            i <= App::FIELD_COUNT,
            fields().len() == App::FIELD_COUNT,
            labels@.len() == i,
            forall|j: int| 0 <= j < i ==> #[trigger] labels@[j]@ == label_of(fields()[j]),
        decreases App::FIELD_COUNT - i,
    {
        match field_at(i) {
            Some(f) => labels.push(field_label(f)),
            None => {},
        }
        i = i + 1;
    }
    assert(labels@.map_values(|l: &str| l@) =~= setting_labels());
    labels
}

/// The values of the settings rows for `c`, top to bottom.
pub fn field_values(c: &ServerConfig) -> (values: Vec<String>)
    ensures
        values@.map_values(|v: String| v@) == setting_values(c@),
{
    let mut values: Vec<String> = Vec::new();
    let mut i: usize = 0;
    while i < App::FIELD_COUNT
        invariant
            i <= App::FIELD_COUNT,
            fields().len() == App::FIELD_COUNT,
            values@.len() == i,
            forall|j: int| 0 <= j < i ==> #[trigger] values@[j]@ == value_of(c@, fields()[j]),
        decreases App::FIELD_COUNT - i,
    {
        match field_at(i) {
            Some(f) => values.push(field_value(c, f)),
            None => {},
        }
        i = i + 1;
    }
    assert(values@.map_values(|v: String| v@) =~= setting_values(c@));
    values
}

/// How the review page names the runtime.
pub open spec fn run_choice(r: Runtime) -> Seq<char> {
    match r {
        Runtime::Docker => "Docker Compose (recommended)"@,
        Runtime::Native => "Native Java 21+"@,
    }
}

/// The summary on the review page.
pub open spec fn review_summary(c: ConfigView) -> Seq<char> {
    c.name + "\n\n"@ + run_choice(c.runtime)
        + " • "@ + decimal(c.max_players as nat)
        + " players • "@ + decimal(c.memory_gb as nat)
        + " GB RAM\n"@ + game_mode_label(c.gamemode)
        + " • "@ + c.difficulty
        + " difficulty • port "@ + decimal(c.port as nat)
        + "\n"@ + decimal(c.view_distance as nat)
        + " chunks view • "@ + decimal(c.simulation_distance as nat)
        + " chunks simulation • seed: "@ + seed_shown(c)
        + "\nHardcore: "@ + yes_no_text(c.hardcore)
        + "    Flight: "@ + yes_no_text(c.allow_flight)
        + "    Command blocks: "@ + yes_no_text(c.command_blocks)
        + "\nAuthentication: "@ + yes_no_text(c.online_mode)
        + "    Whitelist: "@ + yes_no_text(c.whitelist)
        + "    PvP: "@ + yes_no_text(c.pvp)
        + "\n\nInstall folder: "@ + c.directory
        + "\n\nPress Enter to create the server files. No network or system changes are made by this step."@
}

/// The summary of `c` for the review page.
pub fn review_text(c: &ServerConfig) -> (s: String)
    ensures
        s@ == review_summary(c@),
{
    let mut s = c.name.clone();
    s.append("\n\n");
    match c.runtime {
        Runtime::Docker => s.append("Docker Compose (recommended)"),
        Runtime::Native => s.append("Native Java 21+"),
    }
    s.append(" • ");
    push_decimal(&mut s, c.max_players as u32);
    s.append(" players • ");
    push_decimal(&mut s, c.memory_gb as u32);
    s.append(" GB RAM\n");
    s.append(c.gamemode.label());
    s.append(" • ");
    s.append(c.difficulty.as_str());
    s.append(" difficulty • port ");
    push_decimal(&mut s, c.port as u32);
    s.append("\n");
    push_decimal(&mut s, c.view_distance as u32);
    s.append(" chunks view • ");
    push_decimal(&mut s, c.simulation_distance as u32);
    s.append(" chunks simulation • seed: ");
    if c.seed.as_str().is_empty() {
        s.append("Random");
    } else {
        s.append(c.seed.as_str());
    }
    s.append("\nHardcore: ");
    s.append(yes_no(c.hardcore).as_str());
    s.append("    Flight: ");
    s.append(yes_no(c.allow_flight).as_str());
    s.append("    Command blocks: ");
    s.append(yes_no(c.command_blocks).as_str());
    s.append("\nAuthentication: ");
    s.append(yes_no(c.online_mode).as_str());
    s.append("    Whitelist: ");
    s.append(yes_no(c.whitelist).as_str());
    s.append("    PvP: ");
    s.append(yes_no(c.pvp).as_str());
    s.append("\n\nInstall folder: ");
    s.append(c.directory.as_str());
    s.append("\n\nPress Enter to create the server files. No network or system changes are made by this step.");
    s
}

/// How the last page says to start the server.
pub open spec fn start_hint(r: Runtime) -> Seq<char> {
    match r {
        Runtime::Docker => "Run: docker compose up -d"@,
        Runtime::Native => "Run the platform-appropriate install script in that folder."@,
    }
}

/// The text of the last page, after the files are written.
pub open spec fn completion_summary(message: Seq<char>, c: ConfigView) -> Seq<char> {
    "✓ "@ + message + "\n\n"@ + c.directory + "\n\n"@ + start_hint(c.runtime)
        + "\n\nYour EULA acceptance, server properties, and reproducible setup configuration are ready. Back up the folder before large changes."@
}

/// The text of the last page for the wizard `app`.
pub fn complete_text(app: &App) -> (s: String)
    ensures
        s@ == completion_summary(app.message@, app.config@),
{
    let mut s = String::from_str("✓ ");
    s.append(app.message.as_str());
    s.append("\n\n");
    s.append(app.config.directory.as_str());
    s.append("\n\n");
    match app.config.runtime {
        Runtime::Docker => s.append("Run: docker compose up -d"),
        Runtime::Native => s.append("Run the platform-appropriate install script in that folder."),
    }
    s.append("\n\nYour EULA acceptance, server properties, and reproducible setup configuration are ready. Back up the folder before large changes.");
    s
}

/// The height of the settings panel in an area `area_height` rows high: room
/// for every cursor row and the hints, but no more than the area.
pub fn settings_panel_height(area_height: u16) -> (h: u16)
    ensures
        h as int == if area_height < App::FIELD_COUNT + 7 { area_height as int } else { App::FIELD_COUNT + 7 },
{
    let want: u16 = App::FIELD_COUNT as u16 + 7;
    if area_height < want { area_height } else { want }
}

/// The height of the list of settings in an area `area_height` rows high:
/// every cursor row and the borders, leaving four rows for the hints.
pub fn settings_list_height(area_height: u16) -> (h: u16)
    ensures
        h as int == if area_height < 4 {
            0
        } else if area_height - 4 < App::FIELD_COUNT + 2 {
            area_height - 4
        } else {
            App::FIELD_COUNT + 2
        },
{
    let want: u16 = App::FIELD_COUNT as u16 + 2;
    let room: u16 = area_height.saturating_sub(4);
    if room < want { room } else { want }
}

/// The first settings row drawn when `visible` rows fit in the list: the
/// list starts at the top and scrolls only as far as needed to keep the row
/// under the cursor in view.
pub open spec fn first_shown_row(selected: usize, visible: usize) -> int {
    if visible == 0 || selected < visible { 0 } else { selected - visible + 1 }
}

/// How far the settings list scrolls for a list `list_height` rows high with
/// its two border rows, so that the cursor's row stays in view.
pub fn list_scroll(selected: usize, list_height: u16) -> (first: usize)
    ensures
        first == first_shown_row(selected, if list_height < 2 { 0 } else { (list_height - 2) as usize }),
        list_height > 2 ==> first <= selected < first + (list_height - 2),
{
    let visible: usize = if list_height < 2 { 0 } else { (list_height - 2) as usize };
    if visible == 0 || selected < visible {
        0
    } else {
        selected - visible + 1
    }
}

} // verus!
