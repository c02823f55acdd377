//! What holds of the wizard across key presses, and of every setup it writes.

use vstd::prelude::*;
use crate::app::{
    App, AppView, Effect, Field, Key, Page, adjust_field, adjust_fits, adjusted, after_edit_key,
    after_key, after_settings_key, cycled, difficulty_levels, fields, first_position, game_modes,
    initial_app, installed, is_quit_key, is_text_field, key_effect, key_fits, offered_versions,
    row_field, runtimes, text_of, with_message, with_text,
};
use crate::config::{
    ConfigView, GameMode, Runtime, config_error, default_config, game_mode_label, memory_for,
};
use crate::text::{bool_text, decimal, digit_char, is_blank, is_white_space};
use crate::ui::{
    first_shown_row, label_column, label_of, review_summary, run_choice, seed_shown, yes_no_text, setting_labels, setting_values, tip_line,
    value_of,
};
use crate::install::{
    compose_head, compose_text, mode_key, unix_head, windows_head, container_environment, key_lines, port_line, property_entries,
    quoted, setting_line, install_outcome, planned_files, properties_text, unix_installer_text,
    windows_installer_text,
};

verus! {

/// More players never get less memory recommended.
pub proof fn law_memory_grows_with_players(fewer: u16, more: u16)
    requires
        fewer <= more,
    ensures
        memory_for(fewer) <= memory_for(more),
        2 <= memory_for(fewer) <= 8,
{
}

/// The screen and the wizard share one list of rows: there are
/// `App::FIELD_COUNT` of them, each setting has one row, the row the cursor
/// is on shows the name and value of the setting its keys act on, and the
/// last row is Continue.
pub proof fn law_screen_rows_are_wizard_rows(c: ConfigView, i: int)
    requires
        0 <= i < App::FIELD_COUNT,
    ensures
        fields().len() == App::FIELD_COUNT,
        fields().no_duplicates(),
        row_field(i) == Some(fields()[i]),
        setting_labels()[i] == label_of(fields()[i]),
        setting_values(c)[i] == value_of(c, fields()[i]),
        row_field(App::FIELD_COUNT - 1) == Some(Field::Continue),
        row_field(2) == Some(Field::Players),
        row_field(3) == Some(Field::Memory),
{
    let f = fields();
    assert forall|a: int, b: int| 0 <= a < f.len() && 0 <= b < f.len() && a != b implies f[a] != f[b] by {}
}

/// The hint under the rows offers E exactly on the rows whose text E edits.
pub proof fn law_tips_match_rows(a: AppView)
    requires
        a.selected < App::FIELD_COUNT,
    ensures
        tip_line(a.selected) == "Press E to edit server name, folder, MOTD, or world seed."@
            <==> is_text_field(row_field(a.selected as int)),
        is_text_field(row_field(a.selected as int)) && a.page == Page::Configure && !a.editing
            ==> after_key(a, Key::Char('e')).editing,
{
    reveal_strlit("Press E to edit server name, folder, MOTD, or world seed.");
    reveal_strlit("Memory is automatically suggested from player count; you can override it.");
    reveal_strlit("Use left/right arrows to adjust the selected option.");
    let e = "Press E to edit server name, folder, MOTD, or world seed."@;
    assert(e.len() != "Memory is automatically suggested from player count; you can override it."@.len());
    assert(e.len() != "Use left/right arrows to adjust the selected option."@.len());
}

/// The states a wizard can be in: the cursor is on one of the rows; the
/// player count and memory are within the bounds the arrows keep them in;
/// text is edited only on a text row of the settings page; and the review
/// page only ever shows settings that pass validation.
pub open spec fn wizard_state_ok(a: AppView) -> bool {
    &&& a.selected < App::FIELD_COUNT
    &&& 1 <= a.config.max_players <= 100
    &&& 1 <= a.config.memory_gb <= 32
    &&& a.editing ==> a.page == Page::Configure && is_text_field(row_field(a.selected as int))
    &&& a.page == Page::Review ==> config_error(a.config) is None
}

/// A first-time user starts in such a state.
pub proof fn law_start_state_ok()
    ensures
        wizard_state_ok(initial_app()),
{
    law_default_config_is_valid();
}

/// From such a state no key leads to an arithmetic overflow, and every key
/// leads to such a state again: from the start, the wizard never overflows.
pub proof fn law_keys_keep_state_ok(a: AppView, k: Key)
    requires
        wizard_state_ok(a),
    ensures
        key_fits(a, k),
        wizard_state_ok(after_key(a, k)),
{
    if !a.editing && is_quit_key(k) {
    } else if a.page == Page::Configure {
        if a.editing {
            lemma_edit_keeps_state(a, k);
        } else {
            lemma_settings_keep_state(a, k);
        }
    }
}

/// Reporting how the install went keeps such a state, when the report comes
/// from the review page, as it does in the wizard.
pub proof fn law_install_report_keeps_state_ok(a: AppView, e: Seq<char>)
    requires
        wizard_state_ok(a),
        a.page == Page::Review,
    ensures
        wizard_state_ok(installed(a)),
        wizard_state_ok(with_message(a, e)),
{
}

proof fn lemma_edit_keeps_state(a: AppView, k: Key)
    requires
        wizard_state_ok(a),
        a.editing,
    ensures
        wizard_state_ok(after_edit_key(a, k)),
{
    let f = row_field(a.selected as int);
    lemma_text_edit_keeps_numbers(a.config, f, without_last_text(a.config, f));
    if let Key::Char(ch) = k {
        lemma_text_edit_keeps_numbers(a.config, f, text_of(a.config, f).push(ch));
    }
}

spec fn without_last_text(c: ConfigView, f: Option<Field>) -> Seq<char> {
    crate::app::without_last(text_of(c, f))
}

proof fn lemma_text_edit_keeps_numbers(c: ConfigView, f: Option<Field>, t: Seq<char>)
    ensures
        with_text(c, f, t).max_players == c.max_players,
        with_text(c, f, t).memory_gb == c.memory_gb,
{
}

proof fn lemma_settings_keep_state(a: AppView, k: Key)
    requires
        wizard_state_ok(a),
        a.page == Page::Configure,
        !a.editing,
    ensures
        wizard_state_ok(after_settings_key(a, k)),
        (k == Key::Right || k == Key::Char('l')) ==> adjust_fits(a.config, a.selected, 1),
        (k == Key::Left || k == Key::Char('h')) ==> adjust_fits(a.config, a.selected, -1),
{
    lemma_adjust_keeps_bounds(a.config, a.selected, 1);
    lemma_adjust_keeps_bounds(a.config, a.selected, -1);
    let b = after_settings_key(a, k);
    if k == Key::Down || k == Key::Char('j') {
        assert(b.selected == (a.selected + 1) % (App::FIELD_COUNT as int));
    } else if k == Key::Up || k == Key::Char('k') {
        assert(b.selected == (a.selected + App::FIELD_COUNT - 1) % (App::FIELD_COUNT as int));
    } else if k == Key::Right || k == Key::Char('l') {
        assert(b == crate::app::with_config(a, adjusted(a.config, a.selected, 1)));
    } else if k == Key::Left || k == Key::Char('h') {
        assert(b == crate::app::with_config(a, adjusted(a.config, a.selected, -1)));
    } else if k == Key::Char('e') && is_text_field(row_field(a.selected as int)) {
        assert(b.editing && b.page == a.page && b.selected == a.selected && b.config == a.config);
    } else if k == Key::Enter && a.selected == App::FIELD_COUNT - 1 {
        assert(b.config == a.config && b.selected == a.selected && !b.editing);
    } else {
        assert(b == a);
    }
}

proof fn lemma_adjust_keeps_bounds(c: ConfigView, selected: usize, delta: int)
    requires
        1 <= c.max_players <= 100,
        1 <= c.memory_gb <= 32,
        delta == 1 || delta == -1,
    ensures
        adjust_fits(c, selected, delta),
        1 <= adjusted(c, selected, delta).max_players <= 100,
        1 <= adjusted(c, selected, delta).memory_gb <= 32,
{
}

/// With no text being edited, `q` and Esc stop the wizard, whatever the page.
pub proof fn law_quit_keys_stop(a: AppView, k: Key)
    requires
        !a.editing,
        is_quit_key(k),
    ensures
        !after_key(a, k).running,
        key_effect(a, k) == Effect::Handled,
{
}

/// How a key press moves between pages: Welcome to the settings on Enter or
/// `s`; the settings to the review on Enter on Continue with valid settings;
/// the review back to the settings on `b` or Left; no other move (the move to
/// the last page is the install report's). A stopped wizard never starts
/// again, and Enter or `q` on the last page stops it.
pub proof fn law_page_moves(a: AppView, k: Key)
    ensures
        after_key(a, k).running ==> a.running,
        a.page == Page::Complete && (k == Key::Enter || k == Key::Char('q')) ==> !after_key(a, k).running,
        after_key(a, k).page == a.page
            || (a.page == Page::Welcome && after_key(a, k).page == Page::Configure
                && (k == Key::Enter || k == Key::Char('s')))
            || (a.page == Page::Configure && after_key(a, k).page == Page::Review && k == Key::Enter
                && a.selected == App::FIELD_COUNT - 1 && config_error(a.config) is None)
            || (a.page == Page::Review && after_key(a, k).page == Page::Configure
                && (k == Key::Char('b') || k == Key::Left)),
{
}

/// On the settings page, moving the cursor down and then up, or up and then
/// down, puts it back.
pub proof fn law_down_and_up_undo_each_other(a: AppView)
    requires
        a.page == Page::Configure,
        !a.editing,
        a.selected < App::FIELD_COUNT,
    ensures
        key_fits(a, Key::Down),
        key_fits(after_key(a, Key::Down), Key::Up),
        after_key(after_key(a, Key::Down), Key::Up) == a,
        key_fits(a, Key::Up),
        key_fits(after_key(a, Key::Up), Key::Down),
        after_key(after_key(a, Key::Up), Key::Down) == a,
{
    assert(after_key(after_key(a, Key::Down), Key::Up) =~= a);
    assert(after_key(after_key(a, Key::Up), Key::Down) =~= a);
}

/// The wizard reaches the review page only from settings that pass
/// validation, and with those settings unchanged.
pub proof fn law_review_needs_valid_config(a: AppView, k: Key)
    requires
        a.page != Page::Review,
        after_key(a, k).page == Page::Review,
    ensures
        config_error(a.config) is None,
        after_key(a, k).config == a.config,
{
}

/// Files are created only on Enter on the review page, and asking for them
/// changes nothing by itself.
pub proof fn law_install_only_from_review(a: AppView, k: Key)
    requires
        key_effect(a, k) == Effect::Install,
    ensures
        a.page == Page::Review,
        k == Key::Enter,
        after_key(a, k) == a,
{
}

/// While a text is being edited, no key leaves the settings page or stops
/// the wizard.
pub proof fn law_editing_stays_on_page(a: AppView, k: Key)
    requires
        a.page == Page::Configure,
        a.editing,
    ensures
        after_key(a, k).page == Page::Configure,
        after_key(a, k).running == a.running,
        after_key(a, k).selected == a.selected,
{
}

/// The server name, folder, MOTD and seed rows take what is typed: a typed
/// character goes on the end of the row's text, and nothing else changes.
pub proof fn law_text_rows_take_typing(a: AppView, ch: char)
    requires
        a.page == Page::Configure,
        a.editing,
        is_text_field(row_field(a.selected as int)),
    ensures
        after_key(a, Key::Char(ch)).config == with_text(
            a.config,
            row_field(a.selected as int),
            text_of(a.config, row_field(a.selected as int)).push(ch),
        ),
        text_of(after_key(a, Key::Char(ch)).config, row_field(a.selected as int)) == text_of(
            a.config,
            row_field(a.selected as int),
        ).push(ch),
{
}

/// While a text is being edited, typing a character and then Backspace
/// leaves the wizard as it was.
pub proof fn law_typing_then_backspace_restores(a: AppView, ch: char)
    requires
        a.page == Page::Configure,
        a.editing,
    ensures
        after_key(after_key(a, Key::Char(ch)), Key::Backspace) == a,
{
    let f = row_field(a.selected as int);
    let b = after_key(a, Key::Char(ch));
    if is_text_field(f) {
        assert(text_of(b.config, f) == text_of(a.config, f).push(ch));
        assert(text_of(a.config, f).push(ch).drop_last() =~= text_of(a.config, f));
        assert(after_key(b, Key::Backspace).config =~= a.config);
    }
    assert(after_key(b, Key::Backspace) =~= a);
}

/// Moving the players row sets the memory to the recommendation for the new
/// player count, which stays within 1 to 100.
pub proof fn law_player_change_sets_memory(c: ConfigView, delta: int)
    requires
        adjust_fits(c, 2, delta),
    ensures
        1 <= adjusted(c, 2, delta).max_players <= 100,
        adjusted(c, 2, delta).memory_gb == memory_for(adjusted(c, 2, delta).max_players),
{
}

/// The memory row overrides the recommendation: it moves the memory by one
/// GB within 1 to 32 and leaves the player count alone.
pub proof fn law_memory_can_be_overridden(c: ConfigView, delta: int)
    requires
        adjust_fits(c, 3, delta),
    ensures
        adjusted(c, 3, delta).max_players == c.max_players,
        1 <= adjusted(c, 3, delta).memory_gb <= 32,
        c.memory_gb <= 32 && 1 <= c.memory_gb + delta <= 32 ==> adjusted(c, 3, delta).memory_gb == c.memory_gb + delta,
{
}

/// Away from the bounds, one step up and one step down on the players row
/// give back the player count.
pub proof fn law_player_steps_undo(c: ConfigView)
    requires
        1 <= c.max_players <= 95,
    ensures
        adjust_fits(c, 2, 1),
        adjust_fits(adjusted(c, 2, 1), 2, -1),
        adjusted(adjusted(c, 2, 1), 2, -1).max_players == c.max_players,
{
}

/// Every setting the files carry can be changed in the wizard: each of the
/// port, the distances, hardcore, flight, command blocks, world size and
/// spawn protection has a row whose arrows change it.
pub proof fn law_every_setting_has_a_row(c: ConfigView)
    ensures
        adjusted(c, 13, 1).port != c.port || adjusted(c, 13, -1).port != c.port,
        adjusted(c, 14, 1).view_distance != c.view_distance || adjusted(c, 14, -1).view_distance != c.view_distance,
        adjusted(c, 15, 1).simulation_distance != c.simulation_distance
            || adjusted(c, 15, -1).simulation_distance != c.simulation_distance,
        adjusted(c, 16, 1).hardcore != c.hardcore,
        adjusted(c, 17, 1).allow_flight != c.allow_flight,
        adjusted(c, 18, 1).command_blocks != c.command_blocks,
        adjusted(c, 19, 1).max_world_size != c.max_world_size
            || adjusted(c, 19, -1).max_world_size != c.max_world_size,
        adjusted(c, 20, 1).spawn_protection != c.spawn_protection
            || adjusted(c, 20, -1).spawn_protection != c.spawn_protection,
        row_field(11) == Some(Field::Motd) && is_text_field(row_field(11)),
        row_field(12) == Some(Field::Seed) && is_text_field(row_field(12)),
{
}

/// The arrows on a row change the setting the row names and nothing else
/// (the players row also sets the memory to its recommendation).
pub proof fn law_arrows_change_only_their_row(c: ConfigView, i: int, delta: int, g: Field)
    requires
        0 <= i < App::FIELD_COUNT,
        delta == 1 || delta == -1,
        row_field(i) != Some(g),
        row_field(i) == Some(Field::Players) ==> g != Field::Memory,
    ensures
        value_of(adjusted(c, i as usize, delta), g) == value_of(c, g),
{
}

/// An arrow one way and one the other way undo each other on every row that
/// chooses among options, switches, or moves a number, as long as the current
/// choice is one of the options and the number is not at either end.
pub proof fn law_arrows_undo_each_other(c: ConfigView, selected: usize, delta: int)
    requires
        3 <= selected <= 20,
        selected != 11 && selected != 12,
        delta == 1 || delta == -1,
        selected == 3 ==> 2 <= c.memory_gb <= 31,
        selected == 6 ==> difficulty_levels().contains(c.difficulty),
        selected == 10 ==> offered_versions().contains(c.version),
        selected == 13 ==> 1025 <= c.port <= 65534,
        selected == 14 ==> 3 <= c.view_distance <= 31,
        selected == 15 ==> 3 <= c.simulation_distance <= 31,
        selected == 19 ==> 1001 <= c.max_world_size <= 29_998_984,
        selected == 20 ==> 1 <= c.spawn_protection <= 65534,
    ensures
        adjusted(adjusted(c, selected, delta), selected, -delta) == c,
{
    if selected == 4 {
        law_step_there_and_back(runtimes(), c.runtime, delta);
    } else if selected == 5 {
        law_step_there_and_back(game_modes(), c.gamemode, delta);
    } else if selected == 6 {
        lemma_levels_distinct();
        law_step_there_and_back(difficulty_levels(), c.difficulty, delta);
    } else if selected == 10 {
        lemma_versions_distinct();
        law_step_there_and_back(offered_versions(), c.version, delta);
    }
    assert(adjusted(adjusted(c, selected, delta), selected, -delta) =~= c);
}

/// Stepping one way and then back among distinct options returns to the
/// option one started from.
pub proof fn law_step_there_and_back<T>(values: Seq<T>, x: T, delta: int)
    requires
        values.contains(x),
        values.no_duplicates(),
        delta == 1 || delta == -1,
    ensures
        cycled(values, cycled(values, x, delta), -delta) == x,
{
    reveal(first_position);
    let n = values.len() as int;
    let w = choose|i: int| 0 <= i < n && values[i] == x;
    lemma_position_of_distinct(values, w);
    let p = first_position(values, x);
    assert(p == w);
    let q = (p + delta) % n;
    lemma_step_mod(p, delta, n);
    let y = values[q];
    lemma_position_of_distinct(values, q);
    assert(first_position(values, y) == q);
}

proof fn lemma_step_mod(p: int, delta: int, n: int)
    requires
        0 <= p < n,
        delta == 1 || delta == -1,
    ensures
        0 <= (p + delta) % n < n,
        ((p + delta) % n - delta) % n == p,
{
    if delta == 1 {
        if p + 1 < n {
            assert((p + 1) % n == p + 1) by (nonlinear_arith)
                requires
                    0 <= p + 1 < n,
            ;
            assert(p % n == p) by (nonlinear_arith)
                requires
                    0 <= p < n,
            ;
        } else {
            assert((p + 1) % n == 0) by (nonlinear_arith)
                requires
                    p + 1 == n,
                    n > 0,
            ;
            assert((0 - 1) % n == n - 1) by (nonlinear_arith)
                requires
                    n > 0,
            ;
        }
    } else {
        if p > 0 {
            assert((p - 1) % n == p - 1) by (nonlinear_arith)
                requires
                    0 <= p - 1 < n,
            ;
            assert(p % n == p) by (nonlinear_arith)
                requires
                    0 <= p < n,
            ;
        } else {
            assert((0 - 1) % n == n - 1) by (nonlinear_arith)
                requires
                    n > 0,
            ;
            assert((n - 1 + 1) % n == 0) by (nonlinear_arith)
                requires
                    n > 0,
            ;
        }
    }
}

/// The difficulty levels are distinct.
proof fn lemma_levels_distinct()
    ensures
        difficulty_levels().no_duplicates(),
{
    reveal_strlit("peaceful");
    reveal_strlit("easy");
    reveal_strlit("normal");
    reveal_strlit("hard");
    let s = difficulty_levels();
    assert forall|i: int, j: int| 0 <= i < s.len() && 0 <= j < s.len() && i != j implies s[i] != s[j] by {
        if s[i] == s[j] {
            assert(s[i][0] == s[j][0]);
        }
    }
}

/// The offered versions are distinct.
proof fn lemma_versions_distinct()
    ensures
        offered_versions().no_duplicates(),
{
    reveal_strlit("LATEST");
    reveal_strlit("1.21.8");
    reveal_strlit("1.21.7");
    let s = offered_versions();
    assert forall|i: int, j: int| 0 <= i < s.len() && 0 <= j < s.len() && i != j implies s[i] != s[j] by {
        if s[i] == s[j] {
            assert(s[i][0] == s[j][0]);
            assert(s[i][5] == s[j][5]);
        }
    }
}

/// In a list without repeats, an item's first position is where it stands.
proof fn lemma_position_of_distinct<T>(values: Seq<T>, i: int)
    requires
        values.no_duplicates(),
        0 <= i < values.len(),
    ensures
        first_position(values, values[i]) == i,
{
    reveal(first_position);
    let x = values[i];
    assert(0 <= i < values.len() && values[i] == x && forall|j: int| 0 <= j < i ==> values[j] != x);
    let c = choose|k: int| 0 <= k < values.len() && values[k] == x && forall|j: int| 0 <= j < k ==> values[j] != x;
    assert(c == i);
}

/// A switch row pressed twice comes back to where it was.
pub proof fn law_switch_twice_restores(c: ConfigView, selected: usize, delta: int)
    requires
        (7 <= selected <= 9) || (16 <= selected <= 18),
    ensures
        adjusted(adjusted(c, selected, delta), selected, delta) == c,
{
    assert(adjusted(adjusted(c, selected, delta), selected, delta) =~= c);
}

/// A folder that already holds something is never written into.
pub proof fn law_refuses_occupied_folder(c: ConfigView)
    ensures
        install_outcome(c, true) is Err,
{
}

/// A valid configuration in an empty folder always gets its files, among
/// them the accepted EULA and the server properties; Docker gets a Compose
/// file and no scripts, a native install both scripts and no Compose file.
pub proof fn law_setup_files(c: ConfigView)
    requires
        config_error(c) is None,
    ensures
        install_outcome(c, false) == Ok::<Seq<(Seq<char>, Seq<char>)>, Seq<char>>(planned_files(c)),
        planned_files(c).contains(("eula.txt"@, "eula=true\n"@)),
        planned_files(c).contains(("server.properties"@, properties_text(c))),
        c.runtime == Runtime::Docker ==> planned_files(c).contains(("compose.yml"@, compose_text(c))),
        c.runtime == Runtime::Docker ==> planned_files(c).len() == 3,
        c.runtime == Runtime::Native ==> planned_files(c).contains(("install-server.sh"@, unix_installer_text(c))),
        c.runtime == Runtime::Native ==> planned_files(c).contains(("install-server.ps1"@, windows_installer_text(c))),
        c.runtime == Runtime::Native ==> planned_files(c).len() == 4,
{
    let f = planned_files(c);
    assert(f[1] == ("eula.txt"@, "eula=true\n"@));
    assert(f[0] == ("server.properties"@, properties_text(c)));
    if c.runtime == Runtime::Docker {
        assert(f[2] == ("compose.yml"@, compose_text(c)));
    } else {
        assert(f[2] == ("install-server.sh"@, unix_installer_text(c)));
        assert(f[3] == ("install-server.ps1"@, windows_installer_text(c)));
    }
}

/// `piece` occurs in `text` as a run of consecutive characters.
pub open spec fn has_piece(text: Seq<char>, piece: Seq<char>) -> bool {
    exists|k: int|
        0 <= k && k + piece.len() <= text.len() && #[trigger] text.subrange(k, k + piece.len())
            == piece
}

/// A piece of a text is a piece of anything that text begins or ends.
proof fn lemma_piece_in_sum(a: Seq<char>, b: Seq<char>, piece: Seq<char>)
    ensures
        has_piece(a, piece) ==> has_piece(a + b, piece),
        has_piece(b, piece) ==> has_piece(a + b, piece),
{
    if has_piece(a, piece) {
        let k = choose|k: int|
            0 <= k && k + piece.len() <= a.len() && #[trigger] a.subrange(k, k + piece.len()) == piece;
        assert((a + b).subrange(k, k + piece.len()) =~= a.subrange(k, k + piece.len()));
    }
    if has_piece(b, piece) {
        let k = choose|k: int|
            0 <= k && k + piece.len() <= b.len() && #[trigger] b.subrange(k, k + piece.len()) == piece;
        let j = a.len() + k;
        assert((a + b).subrange(j, j + piece.len()) =~= b.subrange(k, k + piece.len()));
    }
}

/// A text holds itself.
proof fn lemma_piece_whole(a: Seq<char>)
    ensures
        has_piece(a, a),
{
    let k: int = 0;
    assert(a.subrange(k, k + a.len()) =~= a);
}

/// Every setting of a list is written as a line of its own.
pub proof fn law_every_setting_has_its_line(
    entries: Seq<(Seq<char>, Seq<char>)>,
    i: int,
    indent: Seq<char>,
    sep: Seq<char>,
)
    requires
        0 <= i < entries.len(),
    ensures
        has_piece(key_lines(entries, indent, sep), setting_line(indent, entries[i].0, sep, entries[i].1)),
    decreases entries.len(),
{
    let prev = key_lines(entries.drop_last(), indent, sep);
    let last = setting_line(indent, entries.last().0, sep, entries.last().1);
    assert(key_lines(entries, indent, sep) == prev + last);
    if i == entries.len() - 1 {
        lemma_piece_whole(last);
        lemma_piece_in_sum(prev, last, last);
    } else {
        law_every_setting_has_its_line(entries.drop_last(), i, indent, sep);
        assert(entries.drop_last()[i] == entries[i]);
        lemma_piece_in_sum(prev, last, setting_line(indent, entries[i].0, sep, entries[i].1));
    }
}

/// The settings for hosts who need more control reach both ways of running
/// the server: `server.properties` has a line for the port, seed, view and
/// simulation distances, hardcore, flight, command blocks, world size and
/// spawn protection, and the Compose file publishes the port and passes the
/// rest to the container.
pub proof fn law_advanced_settings_written(c: ConfigView)
    ensures
        has_piece(properties_text(c), setting_line(Seq::empty(), "server-port"@, "="@, decimal(c.port as nat))),
        has_piece(properties_text(c), setting_line(Seq::empty(), "level-seed"@, "="@, c.seed)),
        has_piece(properties_text(c), setting_line(Seq::empty(), "view-distance"@, "="@, decimal(c.view_distance as nat))),
        has_piece(properties_text(c), setting_line(Seq::empty(), "simulation-distance"@, "="@, decimal(c.simulation_distance as nat))),
        has_piece(properties_text(c), setting_line(Seq::empty(), "hardcore"@, "="@, bool_text(c.hardcore))),
        has_piece(properties_text(c), setting_line(Seq::empty(), "allow-flight"@, "="@, bool_text(c.allow_flight))),
        has_piece(properties_text(c), setting_line(Seq::empty(), "enable-command-block"@, "="@, bool_text(c.command_blocks))),
        has_piece(properties_text(c), setting_line(Seq::empty(), "max-world-size"@, "="@, decimal(c.max_world_size as nat))),
        has_piece(properties_text(c), setting_line(Seq::empty(), "spawn-protection"@, "="@, decimal(c.spawn_protection as nat))),
        has_piece(compose_text(c), port_line(c)),
        has_piece(compose_text(c), setting_line("      "@, "SEED"@, ": "@, quoted(c.seed))),
        has_piece(compose_text(c), setting_line("      "@, "VIEW_DISTANCE"@, ": "@, quoted(decimal(c.view_distance as nat)))),
        has_piece(compose_text(c), setting_line("      "@, "SIMULATION_DISTANCE"@, ": "@, quoted(decimal(c.simulation_distance as nat)))),
        has_piece(compose_text(c), setting_line("      "@, "HARDCORE"@, ": "@, quoted(bool_text(c.hardcore)))),
        has_piece(compose_text(c), setting_line("      "@, "ALLOW_FLIGHT"@, ": "@, quoted(bool_text(c.allow_flight)))),
        has_piece(compose_text(c), setting_line("      "@, "ENABLE_COMMAND_BLOCK"@, ": "@, quoted(bool_text(c.command_blocks)))),
        has_piece(compose_text(c), setting_line("      "@, "MAX_WORLD_SIZE"@, ": "@, quoted(decimal(c.max_world_size as nat)))),
        has_piece(compose_text(c), setting_line("      "@, "SPAWN_PROTECTION"@, ": "@, quoted(decimal(c.spawn_protection as nat)))),
{
    let p = property_entries(c);
    let e = Seq::<char>::empty();
    assert forall|j: int| 7 <= j < 16 implies has_piece(properties_text(c), #[trigger] setting_line(e, p[j].0, "="@, p[j].1)) by {
        law_every_setting_has_its_line(p, j, e, "="@);
    }
    assert(setting_line(e, p[7].0, "="@, p[7].1) == setting_line(e, "server-port"@, "="@, decimal(c.port as nat)));
    assert(setting_line(e, p[8].0, "="@, p[8].1) == setting_line(e, "level-seed"@, "="@, c.seed));
    assert(setting_line(e, p[9].0, "="@, p[9].1) == setting_line(e, "view-distance"@, "="@, decimal(c.view_distance as nat)));
    assert(setting_line(e, p[10].0, "="@, p[10].1) == setting_line(e, "simulation-distance"@, "="@, decimal(c.simulation_distance as nat)));
    assert(setting_line(e, p[11].0, "="@, p[11].1) == setting_line(e, "hardcore"@, "="@, bool_text(c.hardcore)));
    assert(setting_line(e, p[12].0, "="@, p[12].1) == setting_line(e, "allow-flight"@, "="@, bool_text(c.allow_flight)));
    assert(setting_line(e, p[13].0, "="@, p[13].1) == setting_line(e, "enable-command-block"@, "="@, bool_text(c.command_blocks)));
    assert(setting_line(e, p[14].0, "="@, p[14].1) == setting_line(e, "max-world-size"@, "="@, decimal(c.max_world_size as nat)));
    assert(setting_line(e, p[15].0, "="@, p[15].1) == setting_line(e, "spawn-protection"@, "="@, decimal(c.spawn_protection as nat)));
    lemma_compose_lines(c);
    let env = container_environment(c);
    assert(setting_line("      "@, env[11].0, ": "@, env[11].1) == setting_line("      "@, "SEED"@, ": "@, quoted(c.seed)));
    assert(setting_line("      "@, env[12].0, ": "@, env[12].1) == setting_line("      "@, "VIEW_DISTANCE"@, ": "@, quoted(decimal(c.view_distance as nat))));
    assert(setting_line("      "@, env[13].0, ": "@, env[13].1) == setting_line("      "@, "SIMULATION_DISTANCE"@, ": "@, quoted(decimal(c.simulation_distance as nat))));
    assert(setting_line("      "@, env[14].0, ": "@, env[14].1) == setting_line("      "@, "HARDCORE"@, ": "@, quoted(bool_text(c.hardcore))));
    assert(setting_line("      "@, env[15].0, ": "@, env[15].1) == setting_line("      "@, "ALLOW_FLIGHT"@, ": "@, quoted(bool_text(c.allow_flight))));
    assert(setting_line("      "@, env[16].0, ": "@, env[16].1) == setting_line("      "@, "ENABLE_COMMAND_BLOCK"@, ": "@, quoted(bool_text(c.command_blocks))));
    assert(setting_line("      "@, env[17].0, ": "@, env[17].1) == setting_line("      "@, "MAX_WORLD_SIZE"@, ": "@, quoted(decimal(c.max_world_size as nat))));
    assert(setting_line("      "@, env[18].0, ": "@, env[18].1) == setting_line("      "@, "SPAWN_PROTECTION"@, ": "@, quoted(decimal(c.spawn_protection as nat))));
}

proof fn lemma_compose_lines(c: ConfigView)
    ensures
        has_piece(compose_text(c), port_line(c)),
        forall|j: int| 0 <= j < 19 ==> has_piece(compose_text(c), #[trigger] setting_line("      "@, container_environment(c)[j].0, ": "@, container_environment(c)[j].1)),
{
    let env = container_environment(c);
    let lines = key_lines(env, "      "@, ": "@);
    let before = compose_head() + "    ports:\n"@;
    let tail = "    volumes:\n      - ./data:/data\n    restart: unless-stopped\n"@;
    let mid = "    environment:\n"@;
    assert(compose_text(c) == before + port_line(c) + mid + lines + tail);
    lemma_piece_whole(port_line(c));
    lemma_piece_in_sum(before, port_line(c), port_line(c));
    lemma_piece_in_sum(before + port_line(c), mid, port_line(c));
    lemma_piece_in_sum(before + port_line(c) + mid, lines, port_line(c));
    lemma_piece_in_sum(before + port_line(c) + mid + lines, tail, port_line(c));
    assert forall|j: int| 0 <= j < 19 implies has_piece(compose_text(c), #[trigger] setting_line("      "@, env[j].0, ": "@, env[j].1)) by {
        let l = setting_line("      "@, env[j].0, ": "@, env[j].1);
        law_every_setting_has_its_line(env, j, "      "@, ": "@);
        lemma_piece_in_sum(before + port_line(c) + mid, lines, l);
        lemma_piece_in_sum(before + port_line(c) + mid + lines, tail, l);
    }
}

/// Every Compose file runs the maintained server image.
pub proof fn law_compose_uses_server_image(c: ConfigView)
    ensures
        has_piece(compose_text(c), "itzg/minecraft-server"@),
{
    reveal_strlit("services:\n  minecraft:\n    image: itzg/minecraft-server:java21\n    container_name: minecraft-server\n");
    reveal_strlit("itzg/minecraft-server");
    let head = compose_head();
    let image = "itzg/minecraft-server"@;
    let k: int = 34;
    assert(head.subrange(k, k + image.len()) =~= image);
    let env = container_environment(c);
    let lines = key_lines(env, "      "@, ": "@);
    let tail = "    volumes:\n      - ./data:/data\n    restart: unless-stopped\n"@;
    let a = head + "    ports:\n"@;
    let b = a + port_line(c);
    let d = b + "    environment:\n"@;
    let e = d + lines;
    assert(compose_text(c) == e + tail);
    lemma_piece_in_sum(head, "    ports:\n"@, image);
    lemma_piece_in_sum(a, port_line(c), image);
    lemma_piece_in_sum(b, "    environment:\n"@, image);
    lemma_piece_in_sum(d, lines, image);
    lemma_piece_in_sum(e, tail, image);
}

/// The settings a first-time user starts from pass validation, so accepting
/// every default reaches the review page.
pub proof fn law_default_config_is_valid()
    ensures
        config_error(default_config()) is None,
{
    reveal_strlit("My Minecraft Server");
    reveal_strlit("minecraft-server");
    let c = default_config();
    assert(!is_white_space(c.name[0]));
    assert(!is_blank(c.name));
}

/// The server files spell the game mode in small letters: `survival`,
/// `creative`, `adventure` or `spectator`, on the `gamemode` line of
/// `server.properties`.
pub proof fn law_game_mode_words(c: ConfigView)
    ensures
        mode_key(c) == match c.gamemode {
            GameMode::Survival => "survival"@,
            GameMode::Creative => "creative"@,
            GameMode::Adventure => "adventure"@,
            GameMode::Spectator => "spectator"@,
        },
        has_piece(properties_text(c), setting_line(Seq::empty(), "gamemode"@, "="@, mode_key(c))),
{
    reveal_strlit("Survival");
    reveal_strlit("Creative");
    reveal_strlit("Adventure");
    reveal_strlit("Spectator");
    reveal_strlit("survival");
    reveal_strlit("creative");
    reveal_strlit("adventure");
    reveal_strlit("spectator");
    match c.gamemode {
        GameMode::Survival => assert(mode_key(c) =~= "survival"@),
        GameMode::Creative => assert(mode_key(c) =~= "creative"@),
        GameMode::Adventure => assert(mode_key(c) =~= "adventure"@),
        GameMode::Spectator => assert(mode_key(c) =~= "spectator"@),
    }
    law_every_setting_has_its_line(property_entries(c), 2, Seq::empty(), "="@);
}

/// With at least one row in view, the settings list always shows the row
/// under the cursor.
pub proof fn law_cursor_row_in_view(selected: usize, visible: usize)
    requires
        visible > 0,
    ensures
        first_shown_row(selected, visible) <= selected < first_shown_row(selected, visible) + visible,
{
}

/// The settings pass validation exactly when the name is not blank, there
/// is at least one player and at least 1 GB of memory, a folder is named, the
/// port is at least 1024, and both distances lie within 2 to 32 chunks.
pub proof fn law_valid_settings(c: ConfigView)
    ensures
        config_error(c) is None <==> (!is_blank(c.name) && c.max_players >= 1 && c.memory_gb >= 1
            && c.directory.len() > 0 && c.port >= 1024 && 2 <= c.view_distance <= 32
            && 2 <= c.simulation_distance <= 32),
{
}

/// Any player count from one up keeps valid settings valid.
pub proof fn law_any_player_count_is_valid(c: ConfigView, players: u16)
    requires
        config_error(c) is None,
        players >= 1,
    ensures
        config_error(ConfigView { max_players: players, ..c }) is None,
{
}

/// The Compose file hands the container every chosen setting, each on its
/// own environment line, and `server.properties` carries each of its
/// settings on its own line.
pub proof fn law_files_carry_the_settings(c: ConfigView)
    ensures
        has_piece(compose_text(c), setting_line("      "@, "EULA"@, ": "@, quoted("TRUE"@))),
        has_piece(compose_text(c), setting_line("      "@, "TYPE"@, ": "@, "PAPER"@)),
        has_piece(compose_text(c), setting_line("      "@, "VERSION"@, ": "@, quoted(c.version))),
        has_piece(compose_text(c), setting_line("      "@, "MEMORY"@, ": "@, quoted(decimal(c.memory_gb as nat) + "G"@))),
        has_piece(compose_text(c), setting_line("      "@, "MAX_PLAYERS"@, ": "@, quoted(decimal(c.max_players as nat)))),
        has_piece(compose_text(c), setting_line("      "@, "MODE"@, ": "@, quoted(mode_key(c)))),
        has_piece(compose_text(c), setting_line("      "@, "DIFFICULTY"@, ": "@, quoted(c.difficulty))),
        has_piece(compose_text(c), setting_line("      "@, "ONLINE_MODE"@, ": "@, quoted(bool_text(c.online_mode)))),
        has_piece(compose_text(c), setting_line("      "@, "ENABLE_WHITELIST"@, ": "@, quoted(bool_text(c.whitelist)))),
        has_piece(compose_text(c), setting_line("      "@, "PVP"@, ": "@, quoted(bool_text(c.pvp)))),
        has_piece(compose_text(c), setting_line("      "@, "MOTD"@, ": "@, quoted(c.name))),
        has_piece(properties_text(c), setting_line(Seq::empty(), "motd"@, "="@, c.name)),
        has_piece(properties_text(c), setting_line(Seq::empty(), "max-players"@, "="@, decimal(c.max_players as nat))),
        has_piece(properties_text(c), setting_line(Seq::empty(), "difficulty"@, "="@, c.difficulty)),
        has_piece(properties_text(c), setting_line(Seq::empty(), "online-mode"@, "="@, bool_text(c.online_mode))),
        has_piece(properties_text(c), setting_line(Seq::empty(), "white-list"@, "="@, bool_text(c.whitelist))),
        has_piece(properties_text(c), setting_line(Seq::empty(), "pvp"@, "="@, bool_text(c.pvp))),
{
    lemma_compose_lines(c);
    let env = container_environment(c);
    assert(setting_line("      "@, env[0].0, ": "@, env[0].1) == setting_line("      "@, "EULA"@, ": "@, quoted("TRUE"@)));
    assert(setting_line("      "@, env[1].0, ": "@, env[1].1) == setting_line("      "@, "TYPE"@, ": "@, "PAPER"@));
    assert(setting_line("      "@, env[2].0, ": "@, env[2].1) == setting_line("      "@, "VERSION"@, ": "@, quoted(c.version)));
    assert(setting_line("      "@, env[3].0, ": "@, env[3].1) == setting_line("      "@, "MEMORY"@, ": "@, quoted(decimal(c.memory_gb as nat) + "G"@)));
    assert(setting_line("      "@, env[4].0, ": "@, env[4].1) == setting_line("      "@, "MAX_PLAYERS"@, ": "@, quoted(decimal(c.max_players as nat))));
    assert(setting_line("      "@, env[5].0, ": "@, env[5].1) == setting_line("      "@, "MODE"@, ": "@, quoted(mode_key(c))));
    assert(setting_line("      "@, env[6].0, ": "@, env[6].1) == setting_line("      "@, "DIFFICULTY"@, ": "@, quoted(c.difficulty)));
    assert(setting_line("      "@, env[7].0, ": "@, env[7].1) == setting_line("      "@, "ONLINE_MODE"@, ": "@, quoted(bool_text(c.online_mode))));
    assert(setting_line("      "@, env[8].0, ": "@, env[8].1) == setting_line("      "@, "ENABLE_WHITELIST"@, ": "@, quoted(bool_text(c.whitelist))));
    assert(setting_line("      "@, env[9].0, ": "@, env[9].1) == setting_line("      "@, "PVP"@, ": "@, quoted(bool_text(c.pvp))));
    assert(setting_line("      "@, env[10].0, ": "@, env[10].1) == setting_line("      "@, "MOTD"@, ": "@, quoted(c.name)));
    let p = property_entries(c);
    let e = Seq::<char>::empty();
    assert forall|j: int| 0 <= j < 7 implies has_piece(properties_text(c), #[trigger] setting_line(e, p[j].0, "="@, p[j].1)) by {
        law_every_setting_has_its_line(p, j, e, "="@);
    }
    assert(setting_line(e, p[0].0, "="@, p[0].1) == setting_line(e, "motd"@, "="@, c.name));
    assert(setting_line(e, p[1].0, "="@, p[1].1) == setting_line(e, "max-players"@, "="@, decimal(c.max_players as nat)));
    assert(setting_line(e, p[3].0, "="@, p[3].1) == setting_line(e, "difficulty"@, "="@, c.difficulty));
    assert(setting_line(e, p[4].0, "="@, p[4].1) == setting_line(e, "online-mode"@, "="@, bool_text(c.online_mode)));
    assert(setting_line(e, p[5].0, "="@, p[5].1) == setting_line(e, "white-list"@, "="@, bool_text(c.whitelist)));
    assert(setting_line(e, p[6].0, "="@, p[6].1) == setting_line(e, "pvp"@, "="@, bool_text(c.pvp)));
}

/// A piece of a text stays a piece of anything the text is extended by.
proof fn lemma_piece_extends(p: Seq<char>)
    ensures
        forall|a: Seq<char>, b: Seq<char>| has_piece(a, p) ==> #[trigger] has_piece(a + b, p),
{
    assert forall|a: Seq<char>, b: Seq<char>| has_piece(a, p) implies #[trigger] has_piece(a + b, p) by {
        lemma_piece_in_sum(a, b, p);
    }
}

/// Both installer scripts fetch the chosen version and start Java with the
/// chosen memory as both its starting and its largest heap.
pub proof fn law_scripts_carry_version_and_memory(c: ConfigView)
    ensures
        has_piece(unix_installer_text(c), unix_head() + c.version),
        has_piece(windows_installer_text(c), windows_head() + c.version),
        has_piece(unix_installer_text(c), decimal(c.memory_gb as nat) + "G -Xmx"@ + decimal(c.memory_gb as nat) + "G -jar $JAR --nogui\n"@),
        has_piece(windows_installer_text(c), decimal(c.memory_gb as nat) + "G -Xmx"@ + decimal(c.memory_gb as nat) + "G -jar paper.jar --nogui\n"@),
{
    let m = decimal(c.memory_gb as nat);
    let uh = unix_head() + c.version;
    lemma_piece_whole(uh);
    lemma_piece_extends(uh);
    let wh = windows_head() + c.version;
    lemma_piece_whole(wh);
    lemma_piece_extends(wh);
    let ut = m + "G -Xmx"@ + m + "G -jar $JAR --nogui\n"@;
    let u = unix_installer_text(c);
    let ux = u.subrange(0, u.len() - ut.len());
    assert(u =~= ux + ut);
    lemma_piece_whole(ut);
    lemma_piece_in_sum(ux, ut, ut);
    let wt = m + "G -Xmx"@ + m + "G -jar paper.jar --nogui\n"@;
    let w = windows_installer_text(c);
    let wx = w.subrange(0, w.len() - wt.len());
    assert(w =~= wx + wt);
    lemma_piece_whole(wt);
    lemma_piece_in_sum(wx, wt, wt);
}

/// The review page shows each number beside the words that name it: the
/// players and memory, the port, and the view and simulation distances.
pub proof fn law_review_shows_each_number(c: ConfigView)
    ensures
        has_piece(review_summary(c), decimal(c.max_players as nat) + " players • "@ + decimal(c.memory_gb as nat) + " GB RAM\n"@),
        has_piece(review_summary(c), " difficulty • port "@ + decimal(c.port as nat) + "\n"@),
        has_piece(review_summary(c), decimal(c.view_distance as nat) + " chunks view • "@ + decimal(c.simulation_distance as nat) + " chunks simulation • seed: "@),
{
    let a = c.name + "\n\n"@ + run_choice(c.runtime) + " • "@;
    let dm = decimal(c.max_players as nat);
    let dg = decimal(c.memory_gb as nat);
    let p1 = dm + " players • "@ + dg + " GB RAM\n"@;
    let x1 = a + dm + " players • "@ + dg + " GB RAM\n"@;
    assert(x1 =~= a + p1);
    let bb = x1 + game_mode_label(c.gamemode) + " • "@ + c.difficulty;
    let dp = decimal(c.port as nat);
    let p2 = " difficulty • port "@ + dp + "\n"@;
    let x2 = bb + " difficulty • port "@ + dp + "\n"@;
    assert(x2 =~= bb + p2);
    let dv = decimal(c.view_distance as nat);
    let ds = decimal(c.simulation_distance as nat);
    let p3 = dv + " chunks view • "@ + ds + " chunks simulation • seed: "@;
    let x3 = x2 + dv + " chunks view • "@ + ds + " chunks simulation • seed: "@;
    assert(x3 =~= x2 + p3);
    lemma_piece_whole(p1);
    lemma_piece_whole(p2);
    lemma_piece_whole(p3);
    lemma_piece_in_sum(a, p1, p1);
    lemma_piece_in_sum(bb, p2, p2);
    lemma_piece_in_sum(x2, p3, p3);
    lemma_piece_extends(p1);
    lemma_piece_extends(p2);
    lemma_piece_extends(p3);
    assert(has_piece(x1 + game_mode_label(c.gamemode), p1));
    assert(has_piece(x1 + game_mode_label(c.gamemode) + " • "@, p1));
    assert(has_piece(bb, p1));
    assert(has_piece(bb + " difficulty • port "@, p1));
    assert(has_piece(bb + " difficulty • port "@ + dp, p1));
    assert(has_piece(x2, p1));
    assert(has_piece(x2 + dv, p1));
    assert(has_piece(x2 + dv + " chunks view • "@, p1));
    assert(has_piece(x2 + dv + " chunks view • "@ + ds, p1));
    assert(has_piece(x3, p1));
    assert(has_piece(x2 + dv, p2));
    assert(has_piece(x2 + dv + " chunks view • "@, p2));
    assert(has_piece(x2 + dv + " chunks view • "@ + ds, p2));
    assert(has_piece(x3, p2));
    lemma_review_tail(c, x3, p1);
    lemma_review_tail(c, x3, p2);
    lemma_review_tail(c, x3, p3);
}

proof fn lemma_review_tail(c: ConfigView, x3: Seq<char>, p: Seq<char>)
    requires
        has_piece(x3, p),
        x3 == c.name + "\n\n"@ + run_choice(c.runtime) + " • "@ + decimal(c.max_players as nat)
            + " players • "@ + decimal(c.memory_gb as nat) + " GB RAM\n"@ + game_mode_label(c.gamemode)
            + " • "@ + c.difficulty + " difficulty • port "@ + decimal(c.port as nat) + "\n"@
            + decimal(c.view_distance as nat) + " chunks view • "@ + decimal(c.simulation_distance as nat)
            + " chunks simulation • seed: "@,
    ensures
        has_piece(review_summary(c), p),
{
    lemma_piece_extends(p);
    let y1 = x3 + seed_shown(c) + "\nHardcore: "@ + yes_no_text(c.hardcore);
    assert(has_piece(x3 + seed_shown(c), p));
    assert(has_piece(x3 + seed_shown(c) + "\nHardcore: "@, p));
    assert(has_piece(y1, p));
    let y2 = y1 + "    Flight: "@ + yes_no_text(c.allow_flight) + "    Command blocks: "@ + yes_no_text(c.command_blocks);
    assert(has_piece(y1 + "    Flight: "@, p));
    assert(has_piece(y1 + "    Flight: "@ + yes_no_text(c.allow_flight), p));
    assert(has_piece(y1 + "    Flight: "@ + yes_no_text(c.allow_flight) + "    Command blocks: "@, p));
    assert(has_piece(y2, p));
    let y3 = y2 + "\nAuthentication: "@ + yes_no_text(c.online_mode) + "    Whitelist: "@ + yes_no_text(c.whitelist);
    assert(has_piece(y2 + "\nAuthentication: "@, p));
    assert(has_piece(y2 + "\nAuthentication: "@ + yes_no_text(c.online_mode), p));
    assert(has_piece(y2 + "\nAuthentication: "@ + yes_no_text(c.online_mode) + "    Whitelist: "@, p));
    assert(has_piece(y3, p));
    let y4 = y3 + "    PvP: "@ + yes_no_text(c.pvp) + "\n\nInstall folder: "@ + c.directory;
    assert(has_piece(y3 + "    PvP: "@, p));
    assert(has_piece(y3 + "    PvP: "@ + yes_no_text(c.pvp), p));
    assert(has_piece(y3 + "    PvP: "@ + yes_no_text(c.pvp) + "\n\nInstall folder: "@, p));
    assert(has_piece(y4, p));
    assert(has_piece(y4 + "\n\nPress Enter to create the server files. No network or system changes are made by this step."@, p));
    assert(review_summary(c) == y4 + "\n\nPress Enter to create the server files. No network or system changes are made by this step."@);
}

/// The difficulty row steps through peaceful, easy, normal and hard in that
/// order and wraps around at either end, so every level can be chosen.
pub proof fn law_difficulty_order(c: ConfigView)
    ensures
        c.difficulty == "peaceful"@ ==> adjusted(c, 6, 1).difficulty == "easy"@,
        c.difficulty == "easy"@ ==> adjusted(c, 6, 1).difficulty == "normal"@,
        c.difficulty == "normal"@ ==> adjusted(c, 6, 1).difficulty == "hard"@,
        c.difficulty == "hard"@ ==> adjusted(c, 6, 1).difficulty == "peaceful"@,
        c.difficulty == "peaceful"@ ==> adjusted(c, 6, -1).difficulty == "hard"@,
        c.difficulty == "easy"@ ==> adjusted(c, 6, -1).difficulty == "peaceful"@,
        c.difficulty == "normal"@ ==> adjusted(c, 6, -1).difficulty == "easy"@,
        c.difficulty == "hard"@ ==> adjusted(c, 6, -1).difficulty == "normal"@,
{
    let l = difficulty_levels();
    lemma_levels_distinct();
    reveal_strlit("peaceful");
    reveal_strlit("easy");
    reveal_strlit("normal");
    reveal_strlit("hard");
    assert(row_field(6) == Some(Field::Difficulty));
    assert forall|i: int| 0 <= i < 4 && c.difficulty == #[trigger] l[i] implies
        adjusted(c, 6, 1).difficulty == l[(i + 1) % 4] && adjusted(c, 6, -1).difficulty == l[(i - 1) % 4] by {
        lemma_cycled_at(l, i, 1);
        lemma_cycled_at(l, i, -1);
    }
    assert(l[0] == "peaceful"@ && l[1] == "easy"@ && l[2] == "normal"@ && l[3] == "hard"@);
}

/// Among distinct options, `delta` steps from the option at `i` lead to the
/// option at `i + delta`, wrapping around.
proof fn lemma_cycled_at<T>(values: Seq<T>, i: int, delta: int)
    requires
        values.no_duplicates(),
        0 <= i < values.len(),
    ensures
        cycled(values, values[i], delta) == values[(i + delta) % (values.len() as int)],
{
    lemma_position_of_distinct(values, i);
}

/// The version row steps through LATEST, 1.21.8 and 1.21.7 in that order and
/// wraps around at either end.
pub proof fn law_version_order(c: ConfigView)
    ensures
        c.version == "LATEST"@ ==> adjusted(c, 10, 1).version == "1.21.8"@,
        c.version == "1.21.8"@ ==> adjusted(c, 10, 1).version == "1.21.7"@,
        c.version == "1.21.7"@ ==> adjusted(c, 10, 1).version == "LATEST"@,
        c.version == "LATEST"@ ==> adjusted(c, 10, -1).version == "1.21.7"@,
        c.version == "1.21.8"@ ==> adjusted(c, 10, -1).version == "LATEST"@,
        c.version == "1.21.7"@ ==> adjusted(c, 10, -1).version == "1.21.8"@,
{
    let l = offered_versions();
    lemma_versions_distinct();
    reveal_strlit("LATEST");
    reveal_strlit("1.21.8");
    reveal_strlit("1.21.7");
    assert(row_field(10) == Some(Field::Version));
    assert forall|i: int| 0 <= i < 3 && c.version == #[trigger] l[i] implies
        adjusted(c, 10, 1).version == l[(i + 1) % 3] && adjusted(c, 10, -1).version == l[(i - 1) % 3] by {
        lemma_cycled_at(l, i, 1);
        lemma_cycled_at(l, i, -1);
    }
    assert(l[0] == "LATEST"@ && l[1] == "1.21.8"@ && l[2] == "1.21.7"@);
}

/// The runtime row switches between Docker and native Java, and the game
/// mode row steps through survival, creative, adventure and spectator.
pub proof fn law_runtime_and_mode_order(c: ConfigView, delta: int)
    requires
        delta == 1 || delta == -1,
    ensures
        adjusted(c, 4, delta).runtime != c.runtime,
        c.gamemode == GameMode::Survival ==> adjusted(c, 5, 1).gamemode == GameMode::Creative,
        c.gamemode == GameMode::Creative ==> adjusted(c, 5, 1).gamemode == GameMode::Adventure,
        c.gamemode == GameMode::Adventure ==> adjusted(c, 5, 1).gamemode == GameMode::Spectator,
        c.gamemode == GameMode::Spectator ==> adjusted(c, 5, 1).gamemode == GameMode::Survival,
        c.gamemode == GameMode::Survival ==> adjusted(c, 5, -1).gamemode == GameMode::Spectator,
{
    assert(row_field(4) == Some(Field::HowToRun));
    assert(row_field(5) == Some(Field::Mode));
    let r = runtimes();
    assert((0 + 1) % 2 == 1 && (0 - 1) % 2 == 1 && (1 + 1) % 2 == 0 && (1 - 1) % 2 == 0);
    if c.runtime == Runtime::Docker {
        lemma_cycled_at(r, 0, delta);
        assert(adjusted(c, 4, delta).runtime == r[1]);
    } else {
        lemma_cycled_at(r, 1, delta);
        assert(adjusted(c, 4, delta).runtime == r[0]);
    }
    let g = game_modes();
    let j: int = match c.gamemode {
        GameMode::Survival => 0,
        GameMode::Creative => 1,
        GameMode::Adventure => 2,
        GameMode::Spectator => 3,
    };
    lemma_cycled_at(g, j, 1);
    lemma_cycled_at(g, j, -1);
}

/// The value decimal digits stand for.
pub open spec fn digits_value(s: Seq<char>) -> int
    decreases s.len(),
{
    if s.len() == 0 {
        0
    } else {
        digits_value(s.drop_last()) * 10 + (s.last() as int - '0' as int)
    }
}

/// Decimal rendering reads back as the number rendered.
pub proof fn law_decimal_reads_back(n: nat)
    ensures
        digits_value(decimal(n)) == n,
    decreases n,
{
    lemma_digit_value(n % 10);
    if n < 10 {
        assert(decimal(n).drop_last() =~= Seq::<char>::empty());
        assert(digits_value(Seq::<char>::empty()) == 0);
        assert(n % 10 == n);
    } else {
        law_decimal_reads_back(n / 10);
        assert(decimal(n).drop_last() =~= decimal(n / 10));
        assert(decimal(n).last() == digit_char(n % 10));
        assert((n / 10) * 10 + n % 10 == n) by (nonlinear_arith);
    }
}

proof fn lemma_digit_value(d: nat)
    requires
        d < 10,
    ensures
        digit_char(d) as int - '0' as int == d,
{
    assert('0' as int == 48 && '1' as int == 49 && '2' as int == 50 && '3' as int == 51
        && '4' as int == 52 && '5' as int == 53 && '6' as int == 54 && '7' as int == 55
        && '8' as int == 56 && '9' as int == 57);
}

/// Each settings row shows its own setting: the texts as they are, the
/// numbers in decimal digits that read back as the setting, and the switches
/// as Yes or No.
pub proof fn law_rows_show_their_settings(c: ConfigView)
    ensures
        value_of(c, Field::Name) == c.name,
        value_of(c, Field::Folder) == c.directory,
        value_of(c, Field::Motd) == c.motd,
        c.seed.len() > 0 ==> value_of(c, Field::Seed) == c.seed,
        value_of(c, Field::Difficulty) == c.difficulty,
        value_of(c, Field::Version) == c.version,
        value_of(c, Field::Port) == decimal(c.port as nat),
        digits_value(value_of(c, Field::Port)) == c.port,
        value_of(c, Field::WorldSize) == decimal(c.max_world_size as nat),
        digits_value(value_of(c, Field::WorldSize)) == c.max_world_size,
        value_of(c, Field::Players) == decimal(c.max_players as nat) + " players"@,
        value_of(c, Field::Memory) == decimal(c.memory_gb as nat) + " GB"@,
        value_of(c, Field::ViewDistance) == decimal(c.view_distance as nat) + " chunks"@,
        value_of(c, Field::SimulationDistance) == decimal(c.simulation_distance as nat) + " chunks"@,
        value_of(c, Field::SpawnProtection) == decimal(c.spawn_protection as nat) + " blocks"@,
        value_of(c, Field::Hardcore) == (if c.hardcore { "Yes"@ } else { "No"@ }),
        value_of(c, Field::Flight) == (if c.allow_flight { "Yes"@ } else { "No"@ }),
        value_of(c, Field::CommandBlocks) == (if c.command_blocks { "Yes"@ } else { "No"@ }),
        value_of(c, Field::Authentication) == (if c.online_mode { "Yes"@ } else { "No"@ }),
        value_of(c, Field::Whitelist) == (if c.whitelist { "Yes"@ } else { "No"@ }),
        value_of(c, Field::Combat) == (if c.pvp { "Yes"@ } else { "No"@ }),
        setting_values(c)[13] == decimal(c.port as nat),
{
    law_decimal_reads_back(c.port as nat);
    law_decimal_reads_back(c.max_world_size as nat);
}

/// The memory suggestion: 2 GB for up to 5 players, 4 GB for 6 to 15, 6 GB
/// for 16 to 35 and 8 GB for more.
pub proof fn law_memory_suggestion(players: u16)
    ensures
        players <= 5 ==> memory_for(players) == 2,
        6 <= players <= 15 ==> memory_for(players) == 4,
        16 <= players <= 35 ==> memory_for(players) == 6,
        players >= 36 ==> memory_for(players) == 8,
{
}

/// The settings rows are named, top to bottom: server name, install folder,
/// expected players, memory allocation, how to run, game mode, difficulty,
/// online authentication, whitelist, player combat, Minecraft version, server
/// message, world seed, server port, view distance, simulation distance,
/// hardcore world, allow flight, command blocks, max world size, spawn
/// protection and Continue.
pub proof fn law_row_names()
    ensures
        setting_labels() == seq![
            "Server name"@, "Install folder"@, "Expected players"@, "Memory allocation"@,
            "How to run"@, "Game mode"@, "Difficulty"@, "Online authentication"@, "Whitelist"@,
            "Player combat"@, "Minecraft version"@, "Server message (MOTD)"@, "World seed"@,
            "Server port"@, "View distance"@, "Simulation distance"@, "Hardcore world"@,
            "Allow flight"@, "Command blocks"@, "Max world size"@, "Spawn protection"@,
            "Continue"@,
        ],
{
    assert(setting_labels() =~= seq![
        "Server name"@, "Install folder"@, "Expected players"@, "Memory allocation"@,
        "How to run"@, "Game mode"@, "Difficulty"@, "Online authentication"@, "Whitelist"@,
        "Player combat"@, "Minecraft version"@, "Server message (MOTD)"@, "World seed"@,
        "Server port"@, "View distance"@, "Simulation distance"@, "Hardcore world"@,
        "Allow flight"@, "Command blocks"@, "Max world size"@, "Spawn protection"@,
        "Continue"@,
    ]);
}

/// A row label is padded with spaces to 24 characters, and a longer label is
/// kept whole.
pub proof fn law_label_column(label: Seq<char>)
    ensures
        label_column(label).len() == if label.len() < 24 { 24 } else { label.len() as int },
        label_column(label).subrange(0, label.len() as int) == label,
        forall|i: int| label.len() <= i < label_column(label).len() ==> label_column(label)[i] == ' ',
{
    assert(label_column(label).subrange(0, label.len() as int) =~= label);
}

} // verus!
