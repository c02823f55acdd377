//! The wizard's state and how each key press moves it.

use vstd::prelude::*;
use vstd::string::*;
use vstd::laws_eq::obeys_concrete_eq;
use crate::config::{ConfigView, GameMode, Runtime, ServerConfig, config_error, memory_for};
use crate::text::{pop_char, push_char, same_text};

verus! {

/// The screen the wizard shows.
#[derive(Clone, Copy, Debug, PartialEq, Eq, Structural)]
pub enum Page {
    Welcome,
    Configure,
    Review,
    Complete,
}

/// A key press, as far as the wizard tells keys apart.
#[derive(Clone, Copy, Debug, PartialEq, Eq, Structural)]
pub enum Key {
    Char(char),
    Enter,
    Esc,
    Backspace,
    Up,
    Down,
    Left,
    Right,
    Other,
}

/// What the caller must do after a key press.
#[derive(Clone, Copy, Debug, PartialEq, Eq, Structural)]
pub enum Effect {
    /// Nothing beyond the change of state.
    Handled,
    /// Create the server files for the current settings, then report the
    /// outcome with `App::finish_install`.
    Install,
}

/// The rows of the settings page, top to bottom. The cursor, the arrow keys,
/// text editing and the screen all go by this one list.
#[derive(Clone, Copy, Debug, PartialEq, Eq, Structural)]
pub enum Field {
    Name,
    Folder,
    Players,
    Memory,
    HowToRun,
    Mode,
    Difficulty,
    Authentication,
    Whitelist,
    Combat,
    Version,
    Motd,
    Seed,
    Port,
    ViewDistance,
    SimulationDistance,
    Hardcore,
    Flight,
    CommandBlocks,
    WorldSize,
    SpawnProtection,
    Continue,
}

/// The rows of the settings page, top to bottom.
pub open spec fn fields() -> Seq<Field> {
    seq![
        Field::Name,
        Field::Folder,
        Field::Players,
        Field::Memory,
        Field::HowToRun,
        Field::Mode,
        Field::Difficulty,
        Field::Authentication,
        Field::Whitelist,
        Field::Combat,
        Field::Version,
        Field::Motd,
        Field::Seed,
        Field::Port,
        Field::ViewDistance,
        Field::SimulationDistance,
        Field::Hardcore,
        Field::Flight,
        Field::CommandBlocks,
        Field::WorldSize,
        Field::SpawnProtection,
        Field::Continue,
    ]
}

/// The row the cursor at `selected` is on; past the last row nothing is.
pub open spec fn row_field(selected: int) -> Option<Field> {
    if 0 <= selected < fields().len() { Some(fields()[selected]) } else { None }
}

/// The rows whose text is typed in.
pub open spec fn is_text_field(f: Option<Field>) -> bool {
    f == Some(Field::Name) || f == Some(Field::Folder) || f == Some(Field::Motd) || f == Some(
        Field::Seed,
    )
}

/// The text a text row holds.
pub open spec fn text_of(c: ConfigView, f: Option<Field>) -> Seq<char> {
    if f == Some(Field::Name) {
        c.name
    } else if f == Some(Field::Folder) {
        c.directory
    } else if f == Some(Field::Motd) {
        c.motd
    } else {
        c.seed
    }
}

/// The settings with the text of text row `f` replaced by `t`; other rows
/// leave the settings alone.
pub open spec fn with_text(c: ConfigView, f: Option<Field>, t: Seq<char>) -> ConfigView {
    if f == Some(Field::Name) {
        ConfigView { name: t, ..c }
    } else if f == Some(Field::Folder) {
        ConfigView { directory: t, ..c }
    } else if f == Some(Field::Motd) {
        ConfigView { motd: t, ..c }
    } else if f == Some(Field::Seed) {
        ConfigView { seed: t, ..c }
    } else {
        c
    }
}

/// The row at `selected`, as the wizard looks it up.
pub fn field_at(selected: usize) -> (f: Option<Field>)
    ensures
        f == row_field(selected as int),
{
    if selected == 0 { Some(Field::Name) }
    else if selected == 1 { Some(Field::Folder) }
    else if selected == 2 { Some(Field::Players) }
    else if selected == 3 { Some(Field::Memory) }
    else if selected == 4 { Some(Field::HowToRun) }
    else if selected == 5 { Some(Field::Mode) }
    else if selected == 6 { Some(Field::Difficulty) }
    else if selected == 7 { Some(Field::Authentication) }
    else if selected == 8 { Some(Field::Whitelist) }
    else if selected == 9 { Some(Field::Combat) }
    else if selected == 10 { Some(Field::Version) }
    else if selected == 11 { Some(Field::Motd) }
    else if selected == 12 { Some(Field::Seed) }
    else if selected == 13 { Some(Field::Port) }
    else if selected == 14 { Some(Field::ViewDistance) }
    else if selected == 15 { Some(Field::SimulationDistance) }
    else if selected == 16 { Some(Field::Hardcore) }
    else if selected == 17 { Some(Field::Flight) }
    else if selected == 18 { Some(Field::CommandBlocks) }
    else if selected == 19 { Some(Field::WorldSize) }
    else if selected == 20 { Some(Field::SpawnProtection) }
    else if selected == 21 { Some(Field::Continue) }
    else { None }
}

/// The largest world the server accepts, in blocks.
pub open spec fn world_size_limit() -> int {
    29_999_984
}

/// The wizard.
pub struct App {
    pub running: bool,
    pub page: Page,
    pub config: ServerConfig,
    pub selected: usize,
    pub editing: bool,
    pub message: String,
}

/// An `App` with its texts taken as characters.
#[verifier::ext_equal]
pub struct AppView {
    pub running: bool,
    pub page: Page,
    pub config: ConfigView,
    pub selected: usize,
    pub editing: bool,
    pub message: Seq<char>,
}

impl View for App {
    type V = AppView;

    open spec fn view(&self) -> AppView {
        AppView {
            running: self.running,
            page: self.page,
            config: self.config@,
            selected: self.selected,
            editing: self.editing,
            message: self.message@,
        }
    }
}

/// What a key press says when text editing starts.
pub open spec fn editing_hint() -> Seq<char> {
    "Editing — type, Backspace to delete, Enter to save."@
}

/// What the wizard says once the files are written.
pub open spec fn created_message() -> Seq<char> {
    "Server files created successfully."@
}

/// The difficulty levels, in the order the arrows step through them.
pub open spec fn difficulty_levels() -> Seq<Seq<char>> {
    seq!["peaceful"@, "easy"@, "normal"@, "hard"@]
}

/// The Minecraft versions offered, in the order the arrows step through them.
pub open spec fn offered_versions() -> Seq<Seq<char>> {
    seq!["LATEST"@, "1.21.8"@, "1.21.7"@]
}

/// The runtimes, in the order the arrows step through them.
pub open spec fn runtimes() -> Seq<Runtime> {
    seq![Runtime::Docker, Runtime::Native]
}

/// The game modes, in the order the arrows step through them.
pub open spec fn game_modes() -> Seq<GameMode> {
    seq![GameMode::Survival, GameMode::Creative, GameMode::Adventure, GameMode::Spectator]
}

/// Where `x` first occurs in `s`, or 0 where it does not occur.
#[verifier::opaque]
pub open spec fn first_position<T>(s: Seq<T>, x: T) -> int {
    if exists|i: int| 0 <= i < s.len() && s[i] == x {
        choose|i: int| 0 <= i < s.len() && s[i] == x && forall|j: int| 0 <= j < i ==> s[j] != x
    } else {
        0
    }
}

/// The item `delta` steps from `current` in `values`, wrapping around at
/// either end; an item that is not among `values` counts as the first.
pub open spec fn cycled<T>(values: Seq<T>, current: T, delta: int) -> T {
    values[(first_position(values, current) + delta) % (values.len() as int)]
}

/// A 16-bit pattern read as a signed number, as `as i16` reads it.
pub open spec fn signed16(x: u16) -> int {
    if x < 0x8000 { x as int } else { x - 0x10000 }
}

/// An 8-bit pattern read as a signed number, as `as i8` reads it.
pub open spec fn signed8(x: u8) -> int {
    if x < 0x80 { x as int } else { x - 0x100 }
}

/// `x` brought into `lo..=hi`.
pub open spec fn clamped(x: int, lo: int, hi: int) -> int {
    if x < lo { lo } else if x > hi { hi } else { x }
}

/// The settings after the arrow keys move setting `f` by `delta` steps:
/// players by five within 1 to 100, with the memory set to the recommendation;
/// memory by 1 GB within 1 to 32; the port by one within 1024 to 65535; each
/// distance by one chunk within 2 to 32; the world size by 1000 blocks within
/// 1 and the server's limit; the spawn protection by one block; choices step
/// through their options; switches flip.
pub open spec fn adjust_field(c: ConfigView, f: Option<Field>, delta: int) -> ConfigView {
    if f == Some(Field::Players) {
        let next = clamped(signed16(c.max_players) + delta * 5, 1, 100) as u16;
        ConfigView { max_players: next, memory_gb: memory_for(next), ..c }
    } else if f == Some(Field::Memory) {
        ConfigView { memory_gb: clamped(signed8(c.memory_gb) + delta, 1, 32) as u8, ..c }
    } else if f == Some(Field::HowToRun) {
        ConfigView { runtime: cycled(runtimes(), c.runtime, delta), ..c }
    } else if f == Some(Field::Mode) {
        ConfigView { gamemode: cycled(game_modes(), c.gamemode, delta), ..c }
    } else if f == Some(Field::Difficulty) {
        ConfigView { difficulty: cycled(difficulty_levels(), c.difficulty, delta), ..c }
    } else if f == Some(Field::Authentication) {
        ConfigView { online_mode: !c.online_mode, ..c }
    } else if f == Some(Field::Whitelist) {
        ConfigView { whitelist: !c.whitelist, ..c }
    } else if f == Some(Field::Combat) {
        ConfigView { pvp: !c.pvp, ..c }
    } else if f == Some(Field::Version) {
        ConfigView { version: cycled(offered_versions(), c.version, delta), ..c }
    } else if f == Some(Field::Port) {
        ConfigView { port: clamped(c.port + delta, 1024, 65535) as u16, ..c }
    } else if f == Some(Field::ViewDistance) {
        ConfigView { view_distance: clamped(c.view_distance + delta, 2, 32) as u8, ..c }
    } else if f == Some(Field::SimulationDistance) {
        ConfigView { simulation_distance: clamped(c.simulation_distance + delta, 2, 32) as u8, ..c }
    } else if f == Some(Field::Hardcore) {
        ConfigView { hardcore: !c.hardcore, ..c }
    } else if f == Some(Field::Flight) {
        ConfigView { allow_flight: !c.allow_flight, ..c }
    } else if f == Some(Field::CommandBlocks) {
        ConfigView { command_blocks: !c.command_blocks, ..c }
    } else if f == Some(Field::WorldSize) {
        ConfigView { max_world_size: clamped(c.max_world_size + delta * 1000, 1, world_size_limit()) as u32, ..c }
    } else if f == Some(Field::SpawnProtection) {
        ConfigView { spawn_protection: clamped(c.spawn_protection + delta, 0, 65535) as u16, ..c }
    } else {
        c
    }
}

/// The settings after the arrow keys move the setting on row `selected` by
/// `delta` steps.
pub open spec fn adjusted(c: ConfigView, selected: usize, delta: int) -> ConfigView {
    adjust_field(c, row_field(selected as int), delta)
}

/// The arithmetic of a move by `delta` stays within the machine integers
/// that the wizard computes it in.
pub open spec fn adjust_fits(c: ConfigView, selected: usize, delta: int) -> bool {
    &&& row_field(selected as int) == Some(Field::Players) ==> -0x8000 <= signed16(c.max_players) + delta * 5 <= 0x7fff
    &&& row_field(selected as int) == Some(Field::Memory) ==> -0x80 <= signed8(c.memory_gb) + delta <= 0x7f
}

/// Text without its last character; empty text stays empty.
pub open spec fn without_last(s: Seq<char>) -> Seq<char> {
    if s.len() > 0 { s.drop_last() } else { s }
}

/// The two keys that leave the wizard when no text is being edited.
pub open spec fn is_quit_key(k: Key) -> bool {
    k == Key::Char('q') || k == Key::Esc
}

/// A key press while the text of a row is being edited.
pub open spec fn after_edit_key(a: AppView, k: Key) -> AppView {
    let f = row_field(a.selected as int);
    match k {
        Key::Enter | Key::Esc => AppView { editing: false, message: Seq::empty(), ..a },
        Key::Backspace => if is_text_field(f) {
            with_config(a, with_text(a.config, f, without_last(text_of(a.config, f))))
        } else {
            a
        },
        Key::Char(ch) => if is_text_field(f) {
            with_config(a, with_text(a.config, f, text_of(a.config, f).push(ch)))
        } else {
            a
        },
        _ => a,
    }
}

/// A key press on the settings page while no text is being edited.
pub open spec fn after_settings_key(a: AppView, k: Key) -> AppView {
    if k == Key::Down || k == Key::Char('j') {
        AppView { selected: ((a.selected + 1) % (App::FIELD_COUNT as int)) as usize, ..a }
    } else if k == Key::Up || k == Key::Char('k') {
        AppView { selected: ((a.selected + App::FIELD_COUNT - 1) % (App::FIELD_COUNT as int)) as usize, ..a }
    } else if k == Key::Right || k == Key::Char('l') {
        AppView { config: adjusted(a.config, a.selected, 1), ..a }
    } else if k == Key::Left || k == Key::Char('h') {
        AppView { config: adjusted(a.config, a.selected, -1), ..a }
    } else if k == Key::Char('e') && is_text_field(row_field(a.selected as int)) {
        AppView { editing: true, message: editing_hint(), ..a }
    } else if k == Key::Enter && a.selected == App::FIELD_COUNT - 1 {
        match config_error(a.config) {
            None => AppView { page: Page::Review, message: Seq::empty(), ..a },
            Some(err) => AppView { message: err, ..a },
        }
    } else {
        a
    }
}

/// The wizard after a key press.
pub open spec fn after_key(a: AppView, k: Key) -> AppView {
    if !a.editing && is_quit_key(k) {
        AppView { running: false, ..a }
    } else {
        match a.page {
            Page::Welcome => if k == Key::Enter || k == Key::Char('s') {
                AppView { page: Page::Configure, ..a }
            } else {
                a
            },
            Page::Configure => if a.editing {
                after_edit_key(a, k)
            } else {
                after_settings_key(a, k)
            },
            Page::Review => if k == Key::Char('b') || k == Key::Left {
                AppView { page: Page::Configure, ..a }
            } else {
                a
            },
            Page::Complete => if k == Key::Enter || k == Key::Char('q') {
                AppView { running: false, ..a }
            } else {
                a
            },
        }
    }
}

/// What the caller must do after a key press: create the files when Enter is
/// pressed on the review page.
pub open spec fn key_effect(a: AppView, k: Key) -> Effect {
    if !(!a.editing && is_quit_key(k)) && a.page == Page::Review && k == Key::Enter {
        Effect::Install
    } else {
        Effect::Handled
    }
}

/// The key press leads to no arithmetic overflow: the cursor can move, and a
/// number the arrows change fits the machine integer it is computed in.
pub open spec fn key_fits(a: AppView, k: Key) -> bool {
    (!(!a.editing && is_quit_key(k)) && a.page == Page::Configure && !a.editing) ==> {
        &&& (k == Key::Down || k == Key::Char('j')) ==> a.selected + 1 <= usize::MAX
        &&& (k == Key::Up || k == Key::Char('k')) ==> a.selected + App::FIELD_COUNT <= usize::MAX
        &&& (k == Key::Right || k == Key::Char('l')) ==> adjust_fits(a.config, a.selected, 1)
        &&& (k == Key::Left || k == Key::Char('h')) ==> adjust_fits(a.config, a.selected, -1)
    }
}

/// The wizard once the server files exist.
pub open spec fn installed(a: AppView) -> AppView {
    AppView { page: Page::Complete, message: created_message(), ..a }
}

/// The wizard showing `m`.
pub open spec fn with_message(a: AppView, m: Seq<char>) -> AppView {
    AppView { message: m, ..a }
}

/// The wizard with settings `c`.
pub open spec fn with_config(a: AppView, c: ConfigView) -> AppView {
    AppView { config: c, ..a }
}

/// The wizard a first-time user starts in.
pub open spec fn initial_app() -> AppView {
    AppView {
        running: true,
        page: Page::Welcome,
        config: crate::config::default_config(),
        selected: 0,
        editing: false,
        message: Seq::empty(),
    }
}

impl Default for App {
    fn default() -> (a: Self)
        ensures
            a@ == initial_app(),
    {
        App {
            running: true,
            page: Page::Welcome,
            config: ServerConfig::default(),
            selected: 0,
            editing: false,
            message: String::new(),
        }
    }
}

proof fn lemma_u16_as_i16(x: u16)
    ensures
        (x as i16) as int == signed16(x),
{
    assert(x < 0x8000 ==> (x as i16) as int == x as int) by (bit_vector);
    assert(x >= 0x8000 ==> (x as i16) as int == x as int - 0x10000) by (bit_vector);
}

proof fn lemma_u8_as_i8(x: u8)
    ensures
        (x as i8) as int == signed8(x),
{
    assert(x < 0x80 ==> (x as i8) as int == x as int) by (bit_vector);
    assert(x >= 0x80 ==> (x as i8) as int == x as int - 0x100) by (bit_vector);
}

/// Where `current` first occurs among `values`, or 0.
fn position<T: PartialEq>(values: &[T], current: &T) -> (p: usize)
    requires
        obeys_concrete_eq::<T>(),
    ensures
        p as int == first_position(values@, *current),
        values@.len() > 0 ==> p < values@.len(),
{
    proof {
        reveal(obeys_concrete_eq);
        reveal(first_position);
    }
    let mut i: usize = 0;
    while i < values.len()
        invariant
            i <= values@.len(),
            obeys_concrete_eq::<T>(),
            forall|j: int| 0 <= j < i ==> values@[j] != *current,
        decreases values.len() - i,
    {
        proof {
            reveal(obeys_concrete_eq);
        }
        if values[i] == *current {
            proof {
                reveal(first_position);
                let s = values@;
                let x = *current;
                assert(0 <= i < s.len() && s[i as int] == x);
                let c = choose|k: int| 0 <= k < s.len() && s[k] == x && forall|j: int| 0 <= j < k ==> s[j] != x;
                assert(c == i) by {
                    if c < i {
                        assert(s[c] != x);
                    }
                    if c > i {
                        assert(s[i as int] != x);
                    }
                }
            }
            return i;
        }
        i = i + 1;
    }
    proof {
        let s = values@;
        let x = *current;
        assert(!(exists|k: int| 0 <= k < s.len() && s[k] == x));
    }
    0
}

/// The index `delta` steps from `pos` among `len` items, wrapping around.
fn step_index(pos: usize, delta: i8, len: usize) -> (idx: usize)
    requires
        1 <= len <= 127,
        pos < len,
        pos + delta <= 127,
    ensures
        idx as int == (pos + delta) % (len as int),
        idx < len,
{
    let sum: i8 = pos as i8 + delta;
    let m: i8 = len as i8;
    let r: i8 = match sum.checked_rem_euclid(m) {
        Some(r) => r,
        None => 0,
    };
    r as usize
}

/// The item `delta` steps from `current` among `values`, wrapping around.
fn cycle<T: Copy + PartialEq>(values: &[T], current: T, delta: i8) -> (r: T)
    requires
        obeys_concrete_eq::<T>(),
        1 <= values@.len() <= 127,
        first_position(values@, current) + delta <= 127,
    ensures
        r == cycled(values@, current, delta as int),
{
    let pos = position(values, &current);
    let idx = step_index(pos, delta, values.len());
    values[idx]
}

/// Where `current` first occurs among `values`, or 0.
fn text_position(values: &[&str], current: &str) -> (p: usize)
    ensures
        p as int == first_position(values@.map_values(|v: &str| v@), current@),
        values@.len() > 0 ==> p < values@.len(),
{
    proof {
        reveal(first_position);
    }
    let ghost views = values@.map_values(|v: &str| v@);
    let ghost x = current@;
    let mut i: usize = 0;
    while i < values.len()
        invariant
            i <= values@.len(),
            views == values@.map_values(|v: &str| v@),
            x == current@,
            forall|j: int| 0 <= j < i ==> views[j] != x,
        decreases values.len() - i,
    {
        if same_text(values[i], current) {
            proof {
                reveal(first_position);
                assert(views[i as int] == x);
                let c = choose|k: int| 0 <= k < views.len() && views[k] == x && forall|j: int| 0 <= j < k ==> views[j] != x;
                assert(c == i) by {
                    if c < i {
                        assert(views[c] != x);
                    }
                    if c > i {
                        assert(views[i as int] != x);
                    }
                }
            }
            return i;
        }
        i = i + 1;
    }
    proof {
        assert(!(exists|k: int| 0 <= k < views.len() && views[k] == x));
    }
    0
}

/// The text `delta` steps from `current` among `values`, wrapping around.
fn cycle_str(values: &[&str], current: &str, delta: i8) -> (r: String)
    requires
        1 <= values@.len() <= 127,
        first_position(values@.map_values(|v: &str| v@), current@) + delta <= 127,
    ensures
        r@ == cycled(values@.map_values(|v: &str| v@), current@, delta as int),
{
    let pos = text_position(values, current);
    let idx = step_index(pos, delta, values.len());
    values[idx].to_owned()
}

/// The player count after `delta` steps of five, kept within 1..=100.
fn next_players(players: u16, delta: i8) -> (r: u16)
    requires
        -0x8000 <= signed16(players) + delta * 5 <= 0x7fff,
    ensures
        r == clamped(signed16(players) + delta * 5, 1, 100) as u16,
{
    proof {
        lemma_u16_as_i16(players);
    }
    let raw: i16 = players as i16 + delta as i16 * 5;
    let next: i16 = if raw < 1 { 1 } else if raw > 100 { 100 } else { raw };
    next as u16
}

/// The memory after `delta` steps of 1 GB, kept within 1..=32.
fn next_memory(gb: u8, delta: i8) -> (r: u8)
    requires
        -0x80 <= signed8(gb) + delta <= 0x7f,
    ensures
        r == clamped(signed8(gb) + delta, 1, 32) as u8,
{
    proof {
        lemma_u8_as_i8(gb);
    }
    let raw: i8 = gb as i8 + delta;
    let next: i8 = if raw < 1 { 1 } else if raw > 32 { 32 } else { raw };
    next as u8
}

/// Whether a move by `delta` on row `selected` fits its machine integers.
fn adjust_fits_now(c: &ServerConfig, selected: usize, delta: i8) -> (r: bool)
    ensures
        r == adjust_fits(c@, selected, delta as int),
{
    let f = field_at(selected);
    if f == Some(Field::Players) {
        proof {
            lemma_u16_as_i16(c.max_players);
        }
        let v: i32 = c.max_players as i16 as i32 + delta as i32 * 5;
        -0x8000 <= v && v <= 0x7fff
    } else if f == Some(Field::Memory) {
        proof {
            lemma_u8_as_i8(c.memory_gb);
        }
        let v: i32 = c.memory_gb as i8 as i32 + delta as i32;
        -0x80 <= v && v <= 0x7f
    } else {
        true
    }
}

/// The runtime `delta` steps from `current`.
fn next_runtime(current: Runtime, delta: i8) -> (r: Runtime)
    requires
        delta == 1 || delta == -1,
    ensures
        r == cycled(runtimes(), current, delta as int),
{
    proof {
        lemma_runtime_eq();
        lemma_first_position_bound(runtimes(), current);
    }
    let all = [Runtime::Docker, Runtime::Native];
    assert(all@ == runtimes());
    cycle(&all, current, delta)
}

/// The game mode `delta` steps from `current`.
fn next_game_mode(current: GameMode, delta: i8) -> (r: GameMode)
    requires
        delta == 1 || delta == -1,
    ensures
        r == cycled(game_modes(), current, delta as int),
{
    proof {
        lemma_game_mode_eq();
        lemma_first_position_bound(game_modes(), current);
    }
    let all = [GameMode::Survival, GameMode::Creative, GameMode::Adventure, GameMode::Spectator];
    assert(all@ == game_modes());
    cycle(&all, current, delta)
}

/// The difficulty level `delta` steps from `current`.
fn next_difficulty(current: &str, delta: i8) -> (r: String)
    requires
        delta == 1 || delta == -1,
    ensures
        r@ == cycled(difficulty_levels(), current@, delta as int),
{
    let levels = ["peaceful", "easy", "normal", "hard"];
    assert(levels@.map_values(|v: &str| v@) == difficulty_levels());
    proof {
        lemma_first_position_bound(difficulty_levels(), current@);
    }
    cycle_str(&levels, current, delta)
}

/// The offered version `delta` steps from `current`.
fn next_version(current: &str, delta: i8) -> (r: String)
    requires
        delta == 1 || delta == -1,
    ensures
        r@ == cycled(offered_versions(), current@, delta as int),
{
    let versions = ["LATEST", "1.21.8", "1.21.7"];
    assert(versions@.map_values(|v: &str| v@) == offered_versions());
    proof {
        lemma_first_position_bound(offered_versions(), current@);
    }
    cycle_str(&versions, current, delta)
}

proof fn lemma_runtime_eq()
    ensures
        obeys_concrete_eq::<Runtime>(),
{
    reveal(obeys_concrete_eq);
}

proof fn lemma_game_mode_eq()
    ensures
        obeys_concrete_eq::<GameMode>(),
{
    reveal(obeys_concrete_eq);
}

proof fn lemma_first_position_bound<T>(s: Seq<T>, x: T)
    requires
        s.len() > 0,
    ensures
        0 <= first_position(s, x) < s.len(),
{
    reveal(first_position);
    if exists|i: int| 0 <= i < s.len() && s[i] == x {
        let w = choose|i: int| 0 <= i < s.len() && s[i] == x;
        lemma_first_occurrence_exists(s, x, w);
    }
}

proof fn lemma_first_occurrence_exists<T>(s: Seq<T>, x: T, w: int)
    requires
        0 <= w < s.len(),
        s[w] == x,
    ensures
        exists|i: int| 0 <= i < s.len() && s[i] == x && forall|j: int| 0 <= j < i ==> s[j] != x,
    decreases w,
{
    if exists|j: int| 0 <= j < w && s[j] == x {
        let v = choose|j: int| 0 <= j < w && s[j] == x;
        lemma_first_occurrence_exists(s, x, v);
    } else {
        assert(forall|j: int| 0 <= j < w ==> s[j] != x);
    }
}

impl App {
    /// The number of rows the cursor moves through on the settings page.
    pub const FIELD_COUNT: usize = 22;

    /// Moves the wizard on by one key press, and says whether the caller must
    /// now create the server files.
    pub fn handle_key(&mut self, key: Key) -> (effect: Effect)
        requires
            key_fits(old(self)@, key),
        ensures
            final(self)@ == after_key(old(self)@, key),
            effect == key_effect(old(self)@, key),
    {
        if !self.editing && (key == Key::Char('q') || key == Key::Esc) {
            self.running = false;
            return Effect::Handled;
        }
        match self.page {
            Page::Welcome => {
                if key == Key::Enter || key == Key::Char('s') {
                    self.page = Page::Configure;
                }
                Effect::Handled
            },
            Page::Configure => {
                self.configure(key);
                Effect::Handled
            },
            Page::Review => {
                if key == Key::Char('b') || key == Key::Left {
                    self.page = Page::Configure;
                    Effect::Handled
                } else if key == Key::Enter {
                    Effect::Install
                } else {
                    Effect::Handled
                }
            },
            Page::Complete => {
                if key == Key::Enter || key == Key::Char('q') {
                    self.running = false;
                }
                Effect::Handled
            },
        }
    }

    /// Whether `key` can be handled without an arithmetic overflow: what
    /// `handle_key` requires.
    pub fn key_fits(&self, key: Key) -> (r: bool)
        ensures
            r == key_fits(self@, key),
    {
        if !self.editing && (key == Key::Char('q') || key == Key::Esc) {
            return true;
        }
        if self.page != Page::Configure || self.editing {
            return true;
        }
        if key == Key::Down || key == Key::Char('j') {
            self.selected < usize::MAX
        } else if key == Key::Up || key == Key::Char('k') {
            self.selected <= usize::MAX - Self::FIELD_COUNT
        } else if key == Key::Right || key == Key::Char('l') {
            adjust_fits_now(&self.config, self.selected, 1)
        } else if key == Key::Left || key == Key::Char('h') {
            adjust_fits_now(&self.config, self.selected, -1)
        } else {
            true
        }
    }

    /// Records how creating the server files went.
    pub fn finish_install(&mut self, outcome: Result<(), String>)
        ensures
            outcome is Ok ==> final(self)@ == installed(old(self)@),
            outcome matches Err(e) ==> final(self)@ == with_message(old(self)@, e@),
    {
        match outcome {
            Ok(()) => {
                self.page = Page::Complete;
                self.message = String::from_str("Server files created successfully.");
            },
            Err(e) => {
                self.message = e;
            },
        }
    }

    fn configure(&mut self, key: Key)
        requires
            old(self).page == Page::Configure,
            !(!old(self).editing && (key == Key::Char('q') || key == Key::Esc)),
            key_fits(old(self)@, key),
        ensures
            final(self)@ == (if old(self).editing {
                after_edit_key(old(self)@, key)
            } else {
                after_settings_key(old(self)@, key)
            }),
    {
        if self.editing {
            self.edit(key);
            return;
        }
        if key == Key::Down || key == Key::Char('j') {
            self.selected = (self.selected + 1) % Self::FIELD_COUNT;
        } else if key == Key::Up || key == Key::Char('k') {
            self.selected = (self.selected + Self::FIELD_COUNT - 1) % Self::FIELD_COUNT;
        } else if key == Key::Right || key == Key::Char('l') {
            self.adjust(1);
        } else if key == Key::Left || key == Key::Char('h') {
            self.adjust(-1);
        } else if key == Key::Char('e') && is_text_row(self.selected) {
            self.editing = true;
            self.message = String::from_str("Editing — type, Backspace to delete, Enter to save.");
        } else if key == Key::Enter && self.selected == Self::FIELD_COUNT - 1 {
            match self.config.validate() {
                Ok(()) => {
                    self.page = Page::Review;
                    self.message = String::new();
                },
                Err(err) => {
                    self.message = err;
                },
            }
        }
    }

    fn edit(&mut self, key: Key)
        requires
            old(self).page == Page::Configure,
            old(self).editing,
        ensures
            final(self)@ == after_edit_key(old(self)@, key),
    {
        match key {
            Key::Enter | Key::Esc => {
                self.editing = false;
                self.message = String::new();
            },
            Key::Backspace => {
                match field_at(self.selected) {
                    Some(Field::Name) => {
                        let _ = pop_char(&mut self.config.name);
                    },
                    Some(Field::Folder) => {
                        let _ = pop_char(&mut self.config.directory);
                    },
                    Some(Field::Motd) => {
                        let _ = pop_char(&mut self.config.motd);
                    },
                    Some(Field::Seed) => {
                        let _ = pop_char(&mut self.config.seed);
                    },
                    _ => {},
                }
            },
            Key::Char(character) => {
                match field_at(self.selected) {
                    Some(Field::Name) => push_char(&mut self.config.name, character),
                    Some(Field::Folder) => push_char(&mut self.config.directory, character),
                    Some(Field::Motd) => push_char(&mut self.config.motd, character),
                    Some(Field::Seed) => push_char(&mut self.config.seed, character),
                    _ => {},
                }
            },
            _ => {},
        }
    }

    fn adjust(&mut self, delta: i8)
        requires
            delta == 1 || delta == -1,
            adjust_fits(old(self).config@, old(self).selected, delta as int),
        ensures
            final(self)@ == with_config(
                old(self)@,
                adjusted(old(self).config@, old(self).selected, delta as int),
            ),
    {
        adjust_config(&mut self.config, self.selected, delta);
    }
}

/// Whether the row at `selected` holds text that is typed in.
fn is_text_row(selected: usize) -> (r: bool)
    ensures
        r == is_text_field(row_field(selected as int)),
{
    match field_at(selected) {
        Some(Field::Name) | Some(Field::Folder) | Some(Field::Motd) | Some(Field::Seed) => true,
        _ => false,
    }
}

/// `value` moved by `delta` steps of `step`, kept within `lo..=hi`.
fn stepped(value: u32, delta: i8, step: u32, lo: u32, hi: u32) -> (r: u32)
    requires
        delta == 1 || delta == -1,
        step <= 1000,
        lo <= hi,
    ensures
        r as int == clamped(value + delta * step, lo as int, hi as int),
{
    let v: i64 = if delta == 1 { value as i64 + step as i64 } else { value as i64 - step as i64 };
    if v < lo as i64 {
        lo
    } else if v > hi as i64 {
        hi
    } else {
        v as u32
    }
}

/// Moves the setting on row `selected` by `delta` steps.
fn adjust_config(c: &mut ServerConfig, selected: usize, delta: i8)
    requires
        delta == 1 || delta == -1,
        adjust_fits(old(c)@, selected, delta as int),
    ensures
        final(c)@ == adjusted(old(c)@, selected, delta as int),
{
    match field_at(selected) {
        Some(Field::Players) => {
            c.max_players = next_players(c.max_players, delta);
            c.memory_gb = ServerConfig::recommended_memory(c.max_players);
        },
        Some(Field::Memory) => c.memory_gb = next_memory(c.memory_gb, delta),
        Some(Field::HowToRun) => c.runtime = next_runtime(c.runtime, delta),
        Some(Field::Mode) => c.gamemode = next_game_mode(c.gamemode, delta),
        Some(Field::Difficulty) => c.difficulty = next_difficulty(c.difficulty.as_str(), delta),
        Some(Field::Authentication) => c.online_mode = !c.online_mode,
        Some(Field::Whitelist) => c.whitelist = !c.whitelist,
        Some(Field::Combat) => c.pvp = !c.pvp,
        Some(Field::Version) => c.version = next_version(c.version.as_str(), delta),
        Some(Field::Port) => c.port = stepped(c.port as u32, delta, 1, 1024, 65535) as u16,
        Some(Field::ViewDistance) => {
            c.view_distance = stepped(c.view_distance as u32, delta, 1, 2, 32) as u8
        },
        Some(Field::SimulationDistance) => {
            c.simulation_distance = stepped(c.simulation_distance as u32, delta, 1, 2, 32) as u8
        },
        Some(Field::Hardcore) => c.hardcore = !c.hardcore,
        Some(Field::Flight) => c.allow_flight = !c.allow_flight,
        Some(Field::CommandBlocks) => c.command_blocks = !c.command_blocks,
        Some(Field::WorldSize) => {
            c.max_world_size = stepped(c.max_world_size, delta, 1000, 1, 29_999_984)
        },
        Some(Field::SpawnProtection) => {
            c.spawn_protection = stepped(c.spawn_protection as u32, delta, 1, 0, 65535) as u16
        },
        _ => {},
    }
}

} // verus!
