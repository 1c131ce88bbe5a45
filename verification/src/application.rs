//! The decisions behind the preferences dialog: its remembered size and the
//! choice of signature database.
use vstd::prelude::*;
use crate::text::{owned, str_eq};

verus! {

/// The narrowest the preferences dialog opens.
pub const MIN_PREFERENCES_WIDTH: i32 = 520;

/// The lowest the preferences dialog opens.
pub const MIN_PREFERENCES_HEIGHT: i32 = 360;

/// The widest the preferences dialog opens.
pub const MAX_PREFERENCES_WIDTH: i32 = 1400;

/// The highest the preferences dialog opens.
pub const MAX_PREFERENCES_HEIGHT: i32 = 1000;

/// The subtitle of the database path row: the path, or the localized notice
/// that no local database is selected when the path is empty.
pub fn database_path_subtitle(path: &str, no_database_selected: String) -> (r: String)
    ensures
        r@ == (if path@.len() == 0 { no_database_selected@ } else { path@ }),
{
    if path.unicode_len() == 0 {
        no_database_selected
    } else {
        owned(path)
    }
}

/// `v` within `[lo, hi]`.
pub open spec fn clamp_i32(v: i32, lo: i32, hi: i32) -> i32 {
    if v < lo {
        lo
    } else if v > hi {
        hi
    } else {
        v
    }
}

/// The size the preferences dialog opens with, from the remembered size: each
/// side kept within its bounds.
pub fn preferences_size(width: i32, height: i32) -> (r: (i32, i32))
    ensures
        r.0 == clamp_i32(width, MIN_PREFERENCES_WIDTH, MAX_PREFERENCES_WIDTH),
        r.1 == clamp_i32(height, MIN_PREFERENCES_HEIGHT, MAX_PREFERENCES_HEIGHT),
{
    let w = if width < MIN_PREFERENCES_WIDTH {
        MIN_PREFERENCES_WIDTH
    } else if width > MAX_PREFERENCES_WIDTH {
        MAX_PREFERENCES_WIDTH
    } else {
        width
    };
    let h = if height < MIN_PREFERENCES_HEIGHT {
        MIN_PREFERENCES_HEIGHT
    } else if height > MAX_PREFERENCES_HEIGHT {
        MAX_PREFERENCES_HEIGHT
    } else {
        height
    };
    (w, h)
}

/// The selector row of a stored source.
pub open spec fn row_for_source(source: Seq<char>) -> u32 {
    if source == "local"@ { 1u32 } else { 0u32 }
}

/// The stored source of a selector row.
pub open spec fn source_for_row(row: u32) -> Seq<char> {
    if row == 1 { "local"@ } else { "builtin"@ }
}

/// The row of the database source selector for a stored source: the local
/// file is the second row, anything else the built-in database.
pub fn database_source_row(source: &str) -> (r: u32)
    ensures
        r == row_for_source(source@),
{
    proof {
        reveal_strlit("local");
    }
    if str_eq(source, "local") {
        1
    } else {
        0
    }
}

/// The stored source for a selected row of the database source selector.
pub fn database_source_for_row(selected: u32) -> (r: &'static str)
    ensures
        r@ == source_for_row(selected),
{
    if selected == 1 {
        "local"
    } else {
        "builtin"
    }
}

/// A stored source survives a trip through the selector: the built-in and
/// local sources come back as themselves, and any other stored value comes
/// back as the built-in database.
pub proof fn lemma_source_row_round_trip(source: Seq<char>, row: u32)
    ensures
        source_for_row(row_for_source(source)) == (if source == "local"@ { "local"@ } else { "builtin"@ }),
        row_for_source(source_for_row(row)) == (if row == 1 { 1u32 } else { 0u32 }),
{
    reveal_strlit("local");
    reveal_strlit("builtin");
    assert("local"@[0] != "builtin"@[0]);
}


/// The database part of the preferences: the stored source and path, and
/// what the source selector and the path row show.
#[derive(Debug)]
pub struct DatabasePreferences {
    /// The stored source.
    pub source: String,
    /// The stored path of the local database.
    pub path: String,
    /// The row the source selector shows.
    pub selected_row: u32,
    /// Whether the path row, with its button for choosing a file, is enabled.
    pub path_row_enabled: bool,
    /// The subtitle of the path row.
    pub path_subtitle: String,
}

/// What the user does in the database part of the preferences.
#[derive(Debug)]
pub enum PreferencesEvent {
    /// Selects a row of the source selector.
    SelectRow(u32),
    /// Chooses a database file; the path it has.
    ChooseFile(String),
}

/// The content of [`DatabasePreferences`].
pub struct PreferencesView {
    pub source: Seq<char>,
    pub path: Seq<char>,
    pub selected_row: u32,
    pub path_row_enabled: bool,
    pub path_subtitle: Seq<char>,
}

/// The content of a [`PreferencesEvent`].
pub enum PreferencesEventView {
    SelectRow(u32),
    ChooseFile(Seq<char>),
}

impl View for DatabasePreferences {
    type V = PreferencesView;

    open spec fn view(&self) -> PreferencesView {
        PreferencesView {
            source: self.source@,
            path: self.path@,
            selected_row: self.selected_row,
            path_row_enabled: self.path_row_enabled,
            path_subtitle: self.path_subtitle@,
        }
    }
}

impl View for PreferencesEvent {
    type V = PreferencesEventView;

    open spec fn view(&self) -> PreferencesEventView {
        match self {
            PreferencesEvent::SelectRow(i) => PreferencesEventView::SelectRow(*i),
            PreferencesEvent::ChooseFile(p) => PreferencesEventView::ChooseFile(p@),
        }
    }
}

/// The subtitle of the path row for a stored path.
pub open spec fn path_subtitle_for(path: Seq<char>, no_database_selected: Seq<char>) -> Seq<char> {
    if path.len() == 0 { no_database_selected } else { path }
}

/// The database preferences as they open on the stored settings: the
/// selector on the row of the stored source, the path row enabled when that
/// row is the local file, and the stored path as its subtitle.
pub open spec fn opened_preferences(source: Seq<char>, path: Seq<char>, no_database_selected: Seq<char>) -> PreferencesView {
    PreferencesView {
        source,
        path,
        selected_row: row_for_source(source),
        path_row_enabled: row_for_source(source) == 1,
        path_subtitle: path_subtitle_for(path, no_database_selected),
    }
}

/// The database preferences after an event. Selecting another row stores
/// its source and enables the path row for the local file only; selecting
/// the row already shown changes nothing. Choosing a file stores the local
/// source and the file's path, shows the path and enables the path row; the
/// selector keeps its row.
pub open spec fn next_preferences(
    s: PreferencesView,
    e: PreferencesEventView,
    no_database_selected: Seq<char>,
) -> PreferencesView {
    match e {
        PreferencesEventView::SelectRow(i) => if i == s.selected_row {
            s
        } else {
            PreferencesView { source: source_for_row(i), selected_row: i, path_row_enabled: i == 1, ..s }
        },
        PreferencesEventView::ChooseFile(p) => PreferencesView {
            source: "local"@,
            path: p,
            path_row_enabled: true,
            path_subtitle: path_subtitle_for(p, no_database_selected),
            ..s
        },
    }
}

/// The database preferences as they open on the stored source and path.
pub fn open_database_preferences(source: String, path: String, no_database_selected: &str) -> (r:
    DatabasePreferences)
    ensures
        r@ == opened_preferences(source@, path@, no_database_selected@),
{
    let selected_row = database_source_row(source.as_str());
    let path_subtitle = database_path_subtitle(path.as_str(), owned(no_database_selected));
    DatabasePreferences { source, path, selected_row, path_row_enabled: selected_row == 1, path_subtitle }
}

/// The database preferences after an event.
pub fn database_preferences_event(
    prefs: DatabasePreferences,
    event: PreferencesEvent,
    no_database_selected: &str,
) -> (r: DatabasePreferences)
    ensures
        r@ == next_preferences(prefs@, event@, no_database_selected@),
{
    match event {
        PreferencesEvent::SelectRow(i) => {
            if i == prefs.selected_row {
                prefs
            } else {
                DatabasePreferences {
                    source: owned(database_source_for_row(i)),
                    selected_row: i,
                    path_row_enabled: i == 1,
                    ..prefs
                }
            }
        },
        PreferencesEvent::ChooseFile(p) => {
            let path_subtitle = database_path_subtitle(p.as_str(), owned(no_database_selected));
            proof {
                reveal_strlit("local");
            }
            DatabasePreferences {
                source: owned("local"),
                path: p,
                path_row_enabled: true,
                path_subtitle,
                selected_row: prefs.selected_row,
            }
        },
    }
}

/// The database preferences after a sequence of events.
pub open spec fn after_events(
    s: PreferencesView,
    events: Seq<PreferencesEventView>,
    no_database_selected: Seq<char>,
) -> PreferencesView
    decreases events.len(),
{
    if events.len() == 0 {
        s
    } else {
        next_preferences(after_events(s, events.drop_last(), no_database_selected), events.last(), no_database_selected)
    }
}

/// Whether the path row is enabled exactly when the stored source is the
/// local file.
pub open spec fn path_row_follows_source(s: PreferencesView) -> bool {
    s.path_row_enabled == (s.source == "local"@)
}

/// The path row is enabled exactly when the stored source is the local file:
/// when the preferences open, and after any sequence of row selections and
/// file choices. The selector opens on the row of the stored source, a
/// selected row stores its own source, and a chosen file is stored with the
/// local source and shown as the path row's subtitle.
pub proof fn lemma_path_row_follows_source(
    source: Seq<char>,
    path: Seq<char>,
    no_database_selected: Seq<char>,
    events: Seq<PreferencesEventView>,
)
    ensures
        opened_preferences(source, path, no_database_selected).selected_row == (if source == "local"@ { 1u32 } else { 0u32 }),
        path_row_follows_source(after_events(opened_preferences(source, path, no_database_selected), events, no_database_selected)),
        events.len() > 0 ==> (events.last() matches PreferencesEventView::SelectRow(i) ==> {
            let before = after_events(opened_preferences(source, path, no_database_selected), events.drop_last(), no_database_selected);
            let after = after_events(opened_preferences(source, path, no_database_selected), events, no_database_selected);
            i != before.selected_row ==> after.source == (if i == 1 { "local"@ } else { "builtin"@ })
        }),
        events.len() > 0 ==> (events.last() matches PreferencesEventView::ChooseFile(p) ==> {
            let after = after_events(opened_preferences(source, path, no_database_selected), events, no_database_selected);
            &&& after.source == "local"@
            &&& after.path == p
            &&& after.path_subtitle == path_subtitle_for(p, no_database_selected)
        }),
    decreases events.len(),
{
    reveal_strlit("local");
    reveal_strlit("builtin");
    assert("local"@[0] != "builtin"@[0]);
    if events.len() > 0 {
        lemma_path_row_follows_source(source, path, no_database_selected, events.drop_last());
    }
}

} // verus!
