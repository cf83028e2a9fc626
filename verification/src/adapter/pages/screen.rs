//! The state shared by the closing screens: a data table, the event log
//! beside it, a loading spinner, and a blinking cursor in the status bar.

use vstd::prelude::*;
use crate::adapter::components::data_table::{rows_of, texts_of, DataTable, DataTableModel};
use crate::adapter::components::event_log::{EventLog, LogLevel};
use crate::adapter::components::loading_spinner::{LoadingSpinner, SPINNER_FRAMES};
use crate::text::join2;

verus! {

/// The frames of the status-bar animation.
pub const ANIMATION_FRAMES: usize = 60;

/// Whether the screen's data has arrived.
#[derive(Debug, Clone)]
pub enum LoadingState {
    Loading,
    Loaded,
    Error(String),
}

/// The loading state as a plain value.
pub enum LoadingStatus {
    Loading,
    Loaded,
    Failed(Seq<char>),
}

/// The abstract state of a screen.
pub struct ScreenModel {
    pub table: DataTableModel,
    pub log: Seq<(LogLevel, Seq<char>)>,
    pub spinner: nat,
    pub status: LoadingStatus,
    pub animation_frame: nat,
}

/// The loading state as a plain value.
pub open spec fn status_of(s: LoadingState) -> LoadingStatus {
    match s {
        LoadingState::Loading => LoadingStatus::Loading,
        LoadingState::Loaded => LoadingStatus::Loaded,
        LoadingState::Error(e) => LoadingStatus::Failed(e@),
    }
}

impl ScreenModel {
    /// After a tick: the animation moves one frame on (60 frames, then
    /// again from the first) and, while loading, so does the spinner.
    pub open spec fn ticked(self) -> ScreenModel {
        ScreenModel {
            animation_frame: (self.animation_frame + 1) % (ANIMATION_FRAMES as nat),
            spinner: if self.status is Loading {
                (self.spinner + 1) % (SPINNER_FRAMES as nat)
            } else {
                self.spinner
            },
            ..self
        }
    }

    /// After an error: the error is the state, and it is logged with the
    /// prefix "エラー: ".
    pub open spec fn failed(self, error: Seq<char>) -> ScreenModel {
        ScreenModel {
            status: LoadingStatus::Failed(error),
            log: self.log.push((LogLevel::Error, "エラー: "@ + error)),
            ..self
        }
    }

    /// After the data arrived: the rows are shown and loading is over.
    pub open spec fn loaded_with(self, rows: Seq<Seq<Seq<char>>>) -> ScreenModel {
        ScreenModel { table: self.table.with_rows(rows), status: LoadingStatus::Loaded, ..self }
    }

    /// After logging a message.
    pub open spec fn logged(self, level: LogLevel, message: Seq<char>) -> ScreenModel {
        ScreenModel { log: self.log.push((level, message)), ..self }
    }

    /// The cursor at the end of the status bar: shown during the first half
    /// of the animation, blank during the second.
    pub open spec fn cursor(self) -> Seq<char> {
        if self.animation_frame < 30 { "▮"@ } else { " "@ }
    }

    /// After `n` ticks in a row.
    pub open spec fn ticked_times(self, n: nat) -> ScreenModel
        decreases n,
    {
        if n == 0 {
            self
        } else {
            self.ticked_times((n - 1) as nat).ticked()
        }
    }
}

/// A screen as it opens: a table with this title, these headers and
/// column widths, no rows and nothing selected; this log; waiting for its
/// data; both animations on their first frame.
pub open spec fn opened_screen(
    title: Seq<char>,
    headers: Seq<Seq<char>>,
    column_widths: Seq<u16>,
    log: Seq<(LogLevel, Seq<char>)>,
) -> ScreenModel {
    ScreenModel {
        table: DataTableModel { title, headers, column_widths, rows: Seq::empty(), selected: None },
        log,
        spinner: 0,
        status: LoadingStatus::Loading,
        animation_frame: 0,
    }
}

/// A screen of the closing process.
pub struct Screen {
    table: DataTable,
    log: EventLog,
    spinner: LoadingSpinner,
    loading_state: LoadingState,
    animation_frame: usize,
}

impl View for Screen {
    type V = ScreenModel;

    closed spec fn view(&self) -> ScreenModel {
        ScreenModel {
            table: self.table@,
            log: self.log@,
            spinner: self.spinner@,
            status: status_of(self.loading_state),
            animation_frame: self.animation_frame as nat,
        }
    }
}

impl Screen {
    /// The table stays well formed, and both animations stay within their frames.
    pub closed spec fn wf(&self) -> bool {
        &&& self.table@.wf()
        &&& self.spinner@ < SPINNER_FRAMES
        &&& self.animation_frame < ANIMATION_FRAMES
    }

    /// A screen that waits for its data, with an empty table and this log.
    pub fn new(table: DataTable, log: EventLog) -> (r: Self)
        requires
            table@.wf(),
            table@.rows.len() == 0,
            table@.selected is None,
        ensures
            r@.table == table@,
            r@.log == log@,
            r@.spinner == 0,
            r@.status is Loading,
            r@.animation_frame == 0,
            r.wf(),
    {
        Screen {
            table,
            log,
            spinner: LoadingSpinner::new(),
            loading_state: LoadingState::Loading,
            animation_frame: 0,
        }
    }

    /// Records an error: it becomes the state, and it is logged.
    pub fn set_error(&mut self, error: String)
        requires
            old(self).wf(),
        ensures
            final(self).wf(),
            final(self)@ == old(self)@.failed(error@),
    {
        let message = join2("エラー: ", error.as_str());
        self.log.add_error(message);
        self.loading_state = LoadingState::Error(error);
    }

    /// Shows the rows that arrived; loading is over.
    pub fn set_rows(&mut self, rows: Vec<Vec<String>>)
        requires
            old(self).wf(),
        ensures
            final(self).wf(),
            final(self)@ == old(self)@.loaded_with(rows_of(rows@)),
    {
        self.table.set_data(rows);
        self.loading_state = LoadingState::Loaded;
    }

    /// Loading is over, with no rows to show.
    pub fn set_loaded(&mut self)
        requires
            old(self).wf(),
        ensures
            final(self).wf(),
            final(self)@ == (ScreenModel { status: LoadingStatus::Loaded, ..old(self)@ }),
    {
        self.loading_state = LoadingState::Loaded;
    }

    /// Whether the data is still awaited.
    pub fn is_loading(&self) -> (r: bool)
        ensures
            r == (self@.status is Loading),
    {
        match self.loading_state {
            LoadingState::Loading => true,
            _ => false,
        }
    }

    /// Moves the animations on by one frame.
    pub fn tick(&mut self)
        requires
            old(self).wf(),
        ensures
            final(self).wf(),
            final(self)@ == old(self)@.ticked(),
    {
        self.animation_frame = (self.animation_frame + 1) % ANIMATION_FRAMES;
        if self.is_loading() {
            self.spinner.tick();
        }
    }

    /// Logs an informational message.
    pub fn add_info(&mut self, message: String)
        requires
            old(self).wf(),
        ensures
            final(self).wf(),
            final(self)@ == old(self)@.logged(LogLevel::Info, message@),
    {
        self.log.add_info(message);
    }

    /// Logs an error message.
    pub fn add_error(&mut self, message: String)
        requires
            old(self).wf(),
        ensures
            final(self).wf(),
            final(self)@ == old(self)@.logged(LogLevel::Error, message@),
    {
        self.log.add_error(message);
    }

    /// Moves the table's selection down.
    pub fn select_next(&mut self)
        requires
            old(self).wf(),
        ensures
            final(self).wf(),
            final(self)@ == (ScreenModel { table: old(self)@.table.next(), ..old(self)@ }),
    {
        self.table.select_next();
    }

    /// Moves the table's selection up.
    pub fn select_previous(&mut self)
        requires
            old(self).wf(),
        ensures
            final(self).wf(),
            final(self)@ == (ScreenModel { table: old(self)@.table.previous(), ..old(self)@ }),
    {
        self.table.select_previous();
    }

    /// The cursor at the end of the status bar.
    pub fn cursor(&self) -> (r: &'static str)
        ensures
            r@ == self@.cursor(),
    {
        if self.animation_frame < 30 {
            "▮"
        } else {
            " "
        }
    }

    /// The frame of the loading spinner.
    pub fn spinner_frame(&self) -> (r: usize)
        ensures
            r == self@.spinner,
    {
        self.spinner.frame()
    }

    /// A well-formed screen's table is well formed and both animations are
    /// within their frames.
    pub proof fn frames_in_range(&self)
        requires
            self.wf(),
        ensures
            self@.table.wf(),
            self@.animation_frame < ANIMATION_FRAMES,
            self@.spinner < SPINNER_FRAMES,
    {
    }

    /// The table.
    pub fn table(&self) -> (r: &DataTable)
        ensures
            r@ == self@.table,
    {
        &self.table
    }

    /// The event log.
    pub fn log(&self) -> (r: &EventLog)
        ensures
            r@ == self@.log,
    {
        &self.log
    }

    /// The loading state.
    pub fn loading_state(&self) -> (r: &LoadingState)
        ensures
            status_of(*r) == self@.status,
    {
        &self.loading_state
    }
}

/// A row of five cells.
pub fn row5(a: String, b: String, c: String, d: String, e: String) -> (r: Vec<String>)
    ensures
        texts_of(r@) == seq![a@, b@, c@, d@, e@],
{
    let mut r: Vec<String> = Vec::new();
    r.push(a);
    r.push(b);
    r.push(c);
    r.push(d);
    r.push(e);
    proof {
        assert(texts_of(r@) =~= seq![a@, b@, c@, d@, e@]);
    }
    r
}

/// A row of three cells.
pub fn row3(a: String, b: String, c: String) -> (r: Vec<String>)
    ensures
        texts_of(r@) == seq![a@, b@, c@],
{
    let mut r: Vec<String> = Vec::new();
    r.push(a);
    r.push(b);
    r.push(c);
    proof {
        assert(texts_of(r@) =~= seq![a@, b@, c@]);
    }
    r
}

/// Adds a row at the end of a list of rows.
pub fn push_row(rows: &mut Vec<Vec<String>>, row: Vec<String>)
    ensures
        rows_of(final(rows)@) == rows_of(old(rows)@).push(texts_of(row@)),
{
    let ghost before = rows@;
    rows.push(row);
    proof {
        assert(rows_of(rows@) =~= rows_of(before).push(texts_of(row@)));
    }
}

/// Ticking keeps both animations within their frames, and after sixty
/// ticks the status-bar animation is back where it started.
pub proof fn law_tick_stays_in_frames(m: ScreenModel)
    requires
        m.animation_frame < ANIMATION_FRAMES,
        m.spinner < SPINNER_FRAMES,
    ensures
        m.ticked().animation_frame < ANIMATION_FRAMES,
        m.ticked().spinner < SPINNER_FRAMES,
        !(m.status is Loading) ==> m.ticked().spinner == m.spinner,
{
}

/// An error always ends loading, and it is the last thing in the log.
pub proof fn law_error_ends_loading(m: ScreenModel, error: Seq<char>)
    ensures
        !(m.failed(error).status is Loading),
        m.failed(error).log.last() == (LogLevel::Error, "エラー: "@ + error),
        m.failed(error).log.len() == m.log.len() + 1,
{
}

/// `n` ticks move the status-bar animation `n` frames on (modulo its
/// length) and change nothing but the two animations.
proof fn lemma_ticked_times(m: ScreenModel, n: nat)
    requires
        m.animation_frame < ANIMATION_FRAMES,
    ensures
        m.ticked_times(n).animation_frame == (m.animation_frame + n) % (ANIMATION_FRAMES as nat),
        m.ticked_times(n).status == m.status,
        m.ticked_times(n).table == m.table,
        m.ticked_times(n).log == m.log,
    decreases n,
{
    if n == 0 {
        vstd::arithmetic::div_mod::lemma_small_mod(m.animation_frame, 60);
    } else {
        let prev = m.ticked_times((n - 1) as nat);
        lemma_ticked_times(m, (n - 1) as nat);
        let k: int = m.animation_frame + n - 1;
        assert(prev.animation_frame == k % 60);
        assert(m.ticked_times(n) == prev.ticked());
        assert((k % 60 + 1) % 60 == (k + 1) % 60) by {
            vstd::arithmetic::div_mod::lemma_small_mod(1, 60);
            vstd::arithmetic::div_mod::lemma_add_mod_noop(k, 1, 60);
        }
    }
}

/// The status-bar cursor blinks with a period of sixty ticks: sixty ticks
/// in a row bring the animation back to its frame, and change neither the
/// loading state, nor the table, nor the log. Each closing screen's `tick`
/// is one `ticked` step of its model.
pub proof fn law_sixty_ticks_return(m: ScreenModel)
    requires
        m.animation_frame < ANIMATION_FRAMES,
    ensures
        m.ticked_times(60).animation_frame == m.animation_frame,
        m.ticked_times(60).status == m.status,
        m.ticked_times(60).table == m.table,
        m.ticked_times(60).log == m.log,
{
    lemma_ticked_times(m, 60);
    assert((m.animation_frame + 60) % 60 == m.animation_frame % 60) by {
        vstd::arithmetic::div_mod::lemma_mod_add_multiples_vanish(m.animation_frame as int, 60);
    }
    vstd::arithmetic::div_mod::lemma_small_mod(m.animation_frame, 60);
}

} // verus!
