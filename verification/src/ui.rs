//! The page's state machine: which demo is loaded, whether a run is going,
//! the instruction budget, the REPL input row with its history, the help
//! dialog and the hardware panel.
//!
//! The page itself (rendering, timers, the clock and the interpreter
//! session) lives with the caller. Each message is answered with the
//! effects the caller must carry out; a tick of a run is answered in two
//! steps, before and after the caller ticks the session.

use vstd::prelude::*;
use vstd::utf8::encode_utf8;
use crate::demos::{aux_views, catalog, default_demo_index, demos, joined_source, Demo, DemoSummary};
use crate::text::{str_chars, str_eq, string_of};

verus! {

/// Instruction budget of a run, before the user raises it.
pub const DEFAULT_MAX_INSTRS: u64 = 500_000_000;

/// The two tabs of the help dialog.
#[derive(Clone, Copy, Debug, PartialEq, Eq, Structural)]
pub enum HelpTab {
    UserGuide,
    LanguageReference,
}

/// A key pressed in the page, with the modifiers held.
pub struct KeyPress {
    pub key: String,
    pub ctrl: bool,
    pub meta: bool,
}

/// The messages the page handles.
pub enum Msg {
    SelectDemo(usize),
    SourceChanged(String),
    Run,
    Tick,
    Stop,
    Reset,
    Clear,
    IncreaseBudget,
    KeyDown(KeyPress),
    InputChanged(String),
    InputSubmit,
    HistoryPrev,
    HistoryNext,
    ToggleS2,
    OpenHelp,
    CloseHelp,
    SetHelpTab(HelpTab),
}

/// What the status line says; the caller adds the elapsed time where the
/// status carries an instruction count.
pub enum Status {
    /// `idle`
    Idle,
    /// `running...`
    Running,
    /// `running... <n> instrs, <t> ms`
    RunningFor(u64),
    /// `awaiting input (<n> instrs, <t> ms)`
    AwaitingInput(u64),
    /// `stopped`
    Stopped,
    /// `halted (budget) -- <n> instrs`
    BudgetHalted(u64),
    /// `<reason> (<n> instrs, <t> ms)`
    Finished(String, u64),
}

/// [`Status`] with its text as a character sequence.
pub enum StatusView {
    Idle,
    Running,
    RunningFor(u64),
    AwaitingInput(u64),
    Stopped,
    BudgetHalted(u64),
    Finished(Seq<char>, u64),
}

impl View for Status {
    type V = StatusView;

    open spec fn view(&self) -> StatusView {
        match self {
            Status::Idle => StatusView::Idle,
            Status::Running => StatusView::Running,
            Status::RunningFor(n) => StatusView::RunningFor(*n),
            Status::AwaitingInput(n) => StatusView::AwaitingInput(*n),
            Status::Stopped => StatusView::Stopped,
            Status::BudgetHalted(n) => StatusView::BudgetHalted(*n),
            Status::Finished(r, n) => StatusView::Finished(r@, *n),
        }
    }
}

/// What the caller reads from its interpreter session for the page.
pub struct SessionReport {
    pub instructions: u64,
    pub done: bool,
    pub halted: bool,
    pub stop_reason: String,
    pub awaiting_input: bool,
    /// The session's transcript as the output panel shows it.
    pub clean_output: String,
}

/// A message the caller sends to the page after carrying out the effects.
#[derive(Clone, Copy, Debug, PartialEq, Eq, Structural)]
pub enum FollowUp {
    Run,
    Stop,
    CloseHelp,
}

/// What happens to the run's elapsed time.
#[derive(Clone, Copy, Debug, PartialEq, Eq, Structural)]
pub enum Clock {
    /// Left as it is.
    Keep,
    /// Set to the time since the run started.
    Refresh,
    /// Set to zero.
    Reset,
}

/// What the caller must do after a message.
pub struct Effects {
    /// Re-render the page.
    pub render: bool,
    /// Replace the session by a new one on the given text (the selected
    /// demo's auxiliary files joined with the editor's source), interactive
    /// or not as given, and note the time the run starts.
    pub start_session: Option<(String, bool)>,
    /// Drop the session.
    pub drop_session: bool,
    /// Send `Msg::Tick` again soon.
    pub schedule_tick: bool,
    /// Set the machine's S2 switch, if there is a session.
    pub set_switch: Option<bool>,
    /// Feed this line to the session, if there is one.
    pub feed_line: Option<String>,
    /// Tick the session and report with [`AppState::after_tick`].
    pub tick_session: bool,
    /// Send this message next.
    pub follow_up: Option<FollowUp>,
    /// Stop the browser's default handling of the key.
    pub prevent_default: bool,
    pub clock: Clock,
}

/// [`Effects`] with the line to feed as a character sequence.
pub struct EffectsView {
    pub render: bool,
    pub start_session: Option<(Seq<char>, bool)>,
    pub drop_session: bool,
    pub schedule_tick: bool,
    pub set_switch: Option<bool>,
    pub feed_line: Option<Seq<char>>,
    pub tick_session: bool,
    pub follow_up: Option<FollowUp>,
    pub prevent_default: bool,
    pub clock: Clock,
}

impl View for Effects {
    type V = EffectsView;

    open spec fn view(&self) -> EffectsView {
        EffectsView {
            render: self.render,
            start_session: match &self.start_session {
                Some((text, interactive)) => Some((text@, *interactive)),
                None => None,
            },
            drop_session: self.drop_session,
            schedule_tick: self.schedule_tick,
            set_switch: self.set_switch,
            feed_line: match &self.feed_line {
                Some(l) => Some(l@),
                None => None,
            },
            tick_session: self.tick_session,
            follow_up: self.follow_up,
            prevent_default: self.prevent_default,
            clock: self.clock,
        }
    }
}

/// No effect but a re-render or not.
pub open spec fn only_render(render: bool) -> EffectsView {
    EffectsView {
        render,
        start_session: None,
        drop_session: false,
        schedule_tick: false,
        set_switch: None,
        feed_line: None,
        tick_session: false,
        follow_up: None,
        prevent_default: false,
        clock: Clock::Keep,
    }
}

fn effects(render: bool) -> (e: Effects)
    ensures
        e@ == only_render(render),
{
    Effects {
        render,
        start_session: None,
        drop_session: false,
        schedule_tick: false,
        set_switch: None,
        feed_line: None,
        tick_session: false,
        follow_up: None,
        prevent_default: false,
        clock: Clock::Keep,
    }
}

/// The abstract state of the page.
pub struct AppView {
    pub demos: Seq<Demo>,
    pub selected: int,
    pub source: Seq<char>,
    pub output: Seq<char>,
    pub status: StatusView,
    pub error: bool,
    pub running: bool,
    pub has_session: bool,
    pub max_instrs: u64,
    pub budget_exhausted: bool,
    pub input_line: Seq<char>,
    pub awaiting_input: bool,
    pub history: Seq<Seq<char>>,
    pub history_cursor: Option<int>,
    pub output_len_at_feed: Option<int>,
    pub s2_on: bool,
    pub led_on: bool,
    pub help_open: bool,
    pub help_tab: HelpTab,
}

/// The state of the page.
pub struct AppState {
    /// The demo catalog.
    pub catalog: Vec<Demo>,
    /// Position of the loaded demo in the catalog.
    pub selected: usize,
    /// The source in the editor.
    pub source: String,
    /// The output panel.
    pub output: String,
    pub status: Status,
    /// The status line shows an error.
    pub error: bool,
    /// A run is going.
    pub running: bool,
    /// The caller holds an interpreter session.
    pub has_session: bool,
    /// Instruction budget of a one-shot run.
    pub max_instrs: u64,
    /// The last run stopped on its budget.
    pub budget_exhausted: bool,
    /// The REPL input row.
    pub input_line: String,
    /// The session waits for a line of input.
    pub awaiting_input: bool,
    /// Submitted REPL inputs, oldest first.
    pub input_history: Vec<String>,
    /// While walking the history: how far back from the newest entry
    /// (0 = newest); `None` while editing a fresh line.
    pub history_cursor: Option<usize>,
    /// Byte length of the shown output when the last line was fed.
    pub output_len_at_feed: Option<usize>,
    /// The S2 switch of the hardware panel.
    pub s2_on: bool,
    /// The D2 LED of the hardware panel.
    pub led_on: bool,
    pub help_open: bool,
    pub help_tab: HelpTab,
}

impl View for AppState {
    type V = AppView;

    open spec fn view(&self) -> AppView {
        AppView {
            demos: self.catalog@,
            selected: self.selected as int,
            source: self.source@,
            output: self.output@,
            status: self.status@,
            error: self.error,
            running: self.running,
            has_session: self.has_session,
            max_instrs: self.max_instrs,
            budget_exhausted: self.budget_exhausted,
            input_line: self.input_line@,
            awaiting_input: self.awaiting_input,
            history: self.input_history@.map_values(|s: String| s@),
            history_cursor: match self.history_cursor {
                Some(c) => Some(c as int),
                None => None,
            },
            output_len_at_feed: match self.output_len_at_feed {
                Some(n) => Some(n as int),
                None => None,
            },
            s2_on: self.s2_on,
            led_on: self.led_on,
            help_open: self.help_open,
            help_tab: self.help_tab,
        }
    }
}

impl AppView {
    /// Consistency of the page: it holds the catalog, a demo of it is
    /// selected, and the history cursor points into the history.
    pub open spec fn wf(self) -> bool {
        &&& self.demos.map_values(|d: Demo| d.summary()) == catalog()
        &&& 0 <= self.selected < self.demos.len()
        &&& self.history_cursor matches Some(c) ==> 0 <= c < self.history.len()
    }

    /// The text a run feeds the interpreter: the selected demo's auxiliary
    /// files, each under its module directive, then the editor's source
    /// (the source alone for a demo without auxiliary files).
    pub open spec fn run_source(self) -> Seq<char> {
        joined_source(aux_views(self.demos[self.selected].auxiliary_files@), self.source)
    }

    /// Whether the selected demo reads input after its source.
    pub open spec fn selected_interactive(self) -> bool {
        0 <= self.selected < self.demos.len() && self.demos[self.selected].interactive
    }

    /// The page after loading demo `idx` of the catalog: its source in the
    /// editor, no session, output, error, input or history; the page is
    /// unchanged when there is no such demo.
    pub open spec fn load_demo(self, idx: int) -> AppView {
        if 0 <= idx < self.demos.len() {
            AppView {
                selected: idx,
                source: self.demos[idx].source@,
                output: seq![],
                status: StatusView::Idle,
                error: false,
                has_session: false,
                running: false,
                budget_exhausted: false,
                input_line: seq![],
                awaiting_input: false,
                history: seq![],
                history_cursor: None,
                ..self
            }
        } else {
            self
        }
    }

    /// The page after a run starts on its source.
    pub open spec fn start_run(self) -> AppView {
        AppView {
            has_session: true,
            input_line: seq![],
            awaiting_input: false,
            history: seq![],
            history_cursor: None,
            running: true,
            error: false,
            budget_exhausted: false,
            output: seq![],
            status: StatusView::Running,
            ..self
        }
    }

    /// The page after the run ends with `status`, the output panel showing
    /// `output` when there is a session.
    pub open spec fn finish(self, status: StatusView, error: bool, output: Seq<char>) -> AppView {
        AppView {
            running: false,
            status,
            error,
            output: if self.has_session {
                output
            } else {
                self.output
            },
            ..self
        }
    }

    /// The page after stepping one entry back in the history: the cursor
    /// moves to the next older entry (staying on the oldest) and the input
    /// row shows that entry.
    pub open spec fn history_prev(self) -> AppView {
        let len = self.history.len() as int;
        let next = match self.history_cursor {
            None => 0,
            Some(i) => if i + 1 < len {
                i + 1
            } else {
                i
            },
        };
        AppView {
            history_cursor: Some(next),
            input_line: self.history[len - 1 - next],
            ..self
        }
    }

    /// The page after stepping one entry forward in the history: from the
    /// newest entry back to a fresh, empty line.
    pub open spec fn history_next(self) -> AppView {
        let len = self.history.len() as int;
        match self.history_cursor {
            None => self,
            Some(c) => if c == 0 {
                AppView { history_cursor: None, input_line: seq![], ..self }
            } else {
                AppView { history_cursor: Some(c - 1), input_line: self.history[len - c], ..self }
            },
        }
    }
}

/// The budget raised four times, at most to the largest count.
pub open spec fn raised_budget(max: u64) -> u64 {
    if max as int * 4 > u64::MAX {
        u64::MAX
    } else {
        (max * 4) as u64
    }
}

/// Byte length (in UTF-8) of the output a session report shows, as
/// `String::len` gives it.
pub open spec fn clean_len(report: &SessionReport) -> usize {
    encode_utf8(report.clean_output@).len() as usize
}

/// Whether the output has not grown past `fed_len` bytes, the length it had
/// when the last line was fed: the interpreter is still evaluating it.
pub open spec fn still_processing(fed_len: Option<int>, report: &SessionReport) -> bool {
    match fed_len {
        Some(len) => clean_len(report) as int <= len,
        None => false,
    }
}

impl AppState {
    /// The page when it opens: the default demo loaded, the default budget,
    /// the user guide as the help tab.
    pub fn new() -> (s: Self)
        ensures
            s@.wf(),
            s@.demos.map_values(|d: Demo| d.summary()) == catalog(),
            s@.selected == default_demo_index_spec(),
            s@.source == s@.demos[s@.selected].source@,
            s@.output.len() == 0,
            s@.status == StatusView::Idle,
            !s@.error && !s@.running && !s@.has_session && !s@.budget_exhausted,
            s@.max_instrs == DEFAULT_MAX_INSTRS,
            s@.input_line.len() == 0,
            !s@.awaiting_input,
            s@.history.len() == 0,
            s@.history_cursor is None,
            s@.output_len_at_feed is None,
            !s@.s2_on && !s@.led_on && !s@.help_open,
            s@.help_tab == HelpTab::UserGuide,
    {
        let all = demos();
        let idx = default_demo_index();
        proof {
            crate::demos::lemma_default_demo_is_hello();
            assert(all@.len() == catalog().len()) by {
                assert(all@.map_values(|d: Demo| d.summary()).len() == all@.len());
            }
        }
        let source = string_of(all[idx].source);
        let s = AppState {
            catalog: all,
            selected: idx,
            source,
            output: String::new(),
            status: Status::Idle,
            error: false,
            running: false,
            has_session: false,
            max_instrs: DEFAULT_MAX_INSTRS,
            budget_exhausted: false,
            input_line: String::new(),
            awaiting_input: false,
            input_history: Vec::new(),
            history_cursor: None,
            output_len_at_feed: None,
            s2_on: false,
            led_on: false,
            help_open: false,
            help_tab: HelpTab::UserGuide,
        };
        assert(s@.history =~= Seq::<Seq<char>>::empty());
        s
    }
}

/// Whether handling `msg` takes the page from `v` to `w` with effects `e`,
/// `report` being what the caller's session shows.
///
/// Selecting a demo loads it; `Run` starts a run on the selected demo's
/// auxiliary files joined with the editor's source, with the default
/// budget, `IncreaseBudget` with four times the budget;
/// `Stop` ends a run; `Reset` reloads the demo and clears the hardware
/// panel; a tick of a one-shot run whose session has used up the budget
/// ends the run in error, any other tick of a run has the session ticked;
/// `Ctrl`/`Cmd`+`Enter` runs, `Escape` closes the help or stops the run;
/// submitting a line feeds it to the session and records it in the history
/// unless it is empty or repeats the newest entry; the arrow keys walk the
/// history.
pub open spec fn handles(
    v: AppView,
    msg: &Msg,
    report: &Option<SessionReport>,
    w: AppView,
    e: EffectsView,
) -> bool {
    let clean = match report {
        Some(r) => r.clean_output@,
        None => seq![],
    };
    match *msg {
        Msg::SelectDemo(i) => {
            &&& w == AppView { max_instrs: DEFAULT_MAX_INSTRS, ..v.load_demo(i as int) }
            &&& e == if (i as int) < v.demos.len() {
                EffectsView { drop_session: true, clock: Clock::Reset, ..only_render(true) }
            } else {
                only_render(true)
            }
        },
        Msg::SourceChanged(src) => {
            &&& w == AppView { source: src@, ..v }
            &&& e == only_render(false)
        },
        Msg::Run => {
            &&& w == AppView { max_instrs: DEFAULT_MAX_INSTRS, ..v }.start_run()
            &&& e == (EffectsView {
                start_session: Some((v.run_source(), v.selected_interactive())),
                schedule_tick: true,
                clock: Clock::Reset,
                ..only_render(true)
            })
        },
        Msg::IncreaseBudget => {
            &&& w == AppView { max_instrs: raised_budget(v.max_instrs), ..v }.start_run()
            &&& e == (EffectsView {
                start_session: Some((v.run_source(), v.selected_interactive())),
                schedule_tick: true,
                clock: Clock::Reset,
                ..only_render(true)
            })
        },
        Msg::Stop => if v.running {
            &&& w == v.finish(StatusView::Stopped, false, clean)
            &&& e == EffectsView { clock: Clock::Refresh, ..only_render(true) }
        } else {
            &&& w == v
            &&& e == only_render(true)
        },
        Msg::Reset => {
            &&& w == AppView {
                max_instrs: DEFAULT_MAX_INSTRS,
                s2_on: false,
                led_on: false,
                ..AppView { running: false, has_session: false, ..v }.load_demo(
                    v.selected,
                )
            }
            &&& e == EffectsView { drop_session: true, clock: Clock::Reset, ..only_render(true) }
        },
        Msg::ToggleS2 => {
            &&& w == AppView { s2_on: !v.s2_on, ..v }
            &&& e == EffectsView { set_switch: Some(!v.s2_on), ..only_render(true) }
        },
        Msg::Clear => {
            &&& w == if v.running {
                AppView { output: seq![], ..v }
            } else {
                AppView {
                    output: seq![],
                    status: StatusView::Idle,
                    error: false,
                    budget_exhausted: false,
                    ..v
                }
            }
            &&& e == only_render(true)
        },
        Msg::Tick => if !v.running {
            &&& w == v
            &&& e == only_render(false)
        } else if !v.has_session {
            &&& w == AppView { running: false, ..v }
            &&& e == only_render(true)
        } else if !v.selected_interactive() && report->0.instructions >= v.max_instrs {
            &&& w == AppView { budget_exhausted: true, ..v }.finish(
                StatusView::BudgetHalted(report->0.instructions),
                true,
                clean,
            )
            &&& e == EffectsView { clock: Clock::Refresh, ..only_render(true) }
        } else {
            &&& w == v
            &&& e == EffectsView {
                set_switch: Some(v.s2_on),
                tick_session: true,
                ..only_render(false)
            }
        },
        Msg::KeyDown(k) => {
            &&& w == v
            &&& e == if k.key@ == "Enter"@ && (k.ctrl || k.meta) {
                EffectsView {
                    prevent_default: true,
                    follow_up: Some(FollowUp::Run),
                    ..only_render(false)
                }
            } else if k.key@ == "Escape"@ && v.help_open {
                EffectsView {
                    prevent_default: true,
                    follow_up: Some(FollowUp::CloseHelp),
                    ..only_render(false)
                }
            } else if k.key@ == "Escape"@ && v.running {
                EffectsView {
                    prevent_default: true,
                    follow_up: Some(FollowUp::Stop),
                    ..only_render(false)
                }
            } else {
                only_render(false)
            }
        },
        Msg::InputChanged(line) => {
            &&& w == AppView { input_line: line@, history_cursor: None, ..v }
            &&& e == only_render(false)
        },
        Msg::InputSubmit => if !v.awaiting_input {
            &&& w == v
            &&& e == only_render(false)
        } else {
            let line = v.input_line;
            let recorded = line.len() > 0 && (v.history.len() == 0 || v.history.last()
                != line);
            &&& w == AppView {
                input_line: seq![],
                history: if recorded {
                    v.history.push(line)
                } else {
                    v.history
                },
                history_cursor: None,
                output_len_at_feed: match report {
                    Some(r) => Some(clean_len(r) as int),
                    None => v.output_len_at_feed,
                },
                awaiting_input: false,
                status: StatusView::Running,
                ..v
            }
            &&& e == EffectsView {
                feed_line: Some(line),
                schedule_tick: true,
                ..only_render(true)
            }
        },
        Msg::HistoryPrev => if v.history.len() == 0 {
            &&& w == v
            &&& e == only_render(false)
        } else {
            &&& w == v.history_prev()
            &&& e == only_render(true)
        },
        Msg::HistoryNext => if v.history_cursor is None {
            &&& w == v
            &&& e == only_render(false)
        } else {
            &&& w == v.history_next()
            &&& e == only_render(true)
        },
        Msg::OpenHelp => {
            &&& w == AppView { help_open: true, ..v }
            &&& e == only_render(true)
        },
        Msg::CloseHelp => {
            &&& w == AppView { help_open: false, ..v }
            &&& e == only_render(true)
        },
        Msg::SetHelpTab(t) => {
            &&& w == AppView { help_tab: t, ..v }
            &&& e == only_render(true)
        },
    }
}

impl AppState {
    /// Load demo `idx`, if the catalog has one there.
    fn load_demo(&mut self, idx: usize)
        requires
            old(self)@.wf(),
        ensures
            final(self)@ == old(self)@.load_demo(idx as int),
            final(self)@.wf(),
    {
        if idx < self.catalog.len() {
            self.selected = idx;
            self.source = string_of(self.catalog[idx].source);
            self.output = String::new();
            self.status = Status::Idle;
            self.error = false;
            self.has_session = false;
            self.running = false;
            self.budget_exhausted = false;
            self.input_line = String::new();
            self.awaiting_input = false;
            self.input_history = Vec::new();
            self.history_cursor = None;
            assert(self@.history =~= Seq::<Seq<char>>::empty());
        }
    }

    fn start_run(&mut self) -> (e: Effects)
        requires
            old(self)@.wf(),
        ensures
            final(self)@ == old(self)@.start_run(),
            e@ == (EffectsView {
                start_session: Some((old(self)@.run_source(), old(self)@.selected_interactive())),
                schedule_tick: true,
                clock: Clock::Reset,
                ..only_render(true)
            }),
    {
        let interactive = self.catalog[self.selected].interactive;
        let text = self.catalog[self.selected].concat_main(self.source.as_str());
        self.has_session = true;
        self.input_line = String::new();
        self.awaiting_input = false;
        self.input_history = Vec::new();
        self.history_cursor = None;
        self.running = true;
        self.error = false;
        self.budget_exhausted = false;
        self.output = String::new();
        self.status = Status::Running;
        assert(self@.history =~= Seq::<Seq<char>>::empty());
        Effects {
            start_session: Some((text, interactive)),
            schedule_tick: true,
            clock: Clock::Reset,
            ..effects(true)
        }
    }

    fn finish(&mut self, status: Status, error: bool, report: &Option<SessionReport>)
        requires
            old(self)@.has_session == report is Some,
        ensures
            final(self)@ == old(self)@.finish(
                status@,
                error,
                match report {
                    Some(r) => r.clean_output@,
                    None => seq![],
                },
            ),
    {
        self.running = false;
        self.status = status;
        self.error = error;
        if let Some(r) = report {
            self.output = r.clean_output.clone();
        }
    }

    fn on_select(&mut self, msg: &Msg, report: &Option<SessionReport>) -> (e: Effects)
        requires
            old(self)@.wf(),
            msg is SelectDemo,
        ensures
            final(self)@.wf(),
            handles(old(self)@, msg, report, final(self)@, e@),
    {
        let i = match msg {
            Msg::SelectDemo(i) => *i,
            _ => 0,
        };
        let found = i < self.catalog.len();
        self.load_demo(i);
        self.max_instrs = DEFAULT_MAX_INSTRS;
        if found {
            Effects { drop_session: true, clock: Clock::Reset, ..effects(true) }
        } else {
            effects(true)
        }
    }

    fn on_run(&mut self, msg: &Msg, report: &Option<SessionReport>) -> (e: Effects)
        requires
            old(self)@.wf(),
            msg is Run || msg is IncreaseBudget,
        ensures
            final(self)@.wf(),
            handles(old(self)@, msg, report, final(self)@, e@),
    {
        self.max_instrs = match msg {
            Msg::IncreaseBudget => if self.max_instrs > u64::MAX / 4 {
                u64::MAX
            } else {
                self.max_instrs * 4
            },
            _ => DEFAULT_MAX_INSTRS,
        };
        self.start_run()
    }

    fn on_stop(&mut self, msg: &Msg, report: &Option<SessionReport>) -> (e: Effects)
        requires
            old(self)@.wf(),
            old(self)@.has_session == report is Some,
            msg is Stop,
        ensures
            final(self)@.wf(),
            handles(old(self)@, msg, report, final(self)@, e@),
    {
        if self.running {
            self.finish(Status::Stopped, false, report);
            Effects { clock: Clock::Refresh, ..effects(true) }
        } else {
            effects(true)
        }
    }

    fn on_reset(&mut self, msg: &Msg, report: &Option<SessionReport>) -> (e: Effects)
        requires
            old(self)@.wf(),
            msg is Reset,
        ensures
            final(self)@.wf(),
            handles(old(self)@, msg, report, final(self)@, e@),
    {
        let idx = self.selected;
        self.running = false;
        self.has_session = false;
        self.load_demo(idx);
        self.max_instrs = DEFAULT_MAX_INSTRS;
        self.s2_on = false;
        self.led_on = false;
        Effects { drop_session: true, clock: Clock::Reset, ..effects(true) }
    }

    fn on_simple(&mut self, msg: &Msg, report: &Option<SessionReport>) -> (e: Effects)
        requires
            old(self)@.wf(),
            msg is SourceChanged || msg is ToggleS2 || msg is Clear || msg is InputChanged
                || msg is OpenHelp || msg is CloseHelp || msg is SetHelpTab,
        ensures
            final(self)@.wf(),
            handles(old(self)@, msg, report, final(self)@, e@),
    {
        match msg {
            Msg::SourceChanged(src) => {
                self.source = src.clone();
                effects(false)
            },
            Msg::ToggleS2 => {
                self.s2_on = !self.s2_on;
                Effects { set_switch: Some(self.s2_on), ..effects(true) }
            },
            Msg::Clear => {
                self.output = String::new();
                if !self.running {
                    self.status = Status::Idle;
                    self.error = false;
                    self.budget_exhausted = false;
                }
                effects(true)
            },
            Msg::InputChanged(line) => {
                self.input_line = line.clone();
                self.history_cursor = None;
                effects(false)
            },
            Msg::OpenHelp => {
                self.help_open = true;
                effects(true)
            },
            Msg::CloseHelp => {
                self.help_open = false;
                effects(true)
            },
            Msg::SetHelpTab(t) => {
                self.help_tab = *t;
                effects(true)
            },
            _ => effects(false),
        }
    }

    fn on_tick(&mut self, msg: &Msg, report: &Option<SessionReport>) -> (e: Effects)
        requires
            old(self)@.wf(),
            old(self)@.has_session == report is Some,
            msg is Tick,
        ensures
            final(self)@.wf(),
            handles(old(self)@, msg, report, final(self)@, e@),
    {
        if !self.running {
            return effects(false);
        }
        match report {
            None => {
                self.running = false;
                effects(true)
            },
            Some(r) => {
                let interactive = self.catalog[self.selected].interactive;
                if !interactive && r.instructions >= self.max_instrs {
                    self.budget_exhausted = true;
                    let n = r.instructions;
                    self.finish(Status::BudgetHalted(n), true, report);
                    Effects { clock: Clock::Refresh, ..effects(true) }
                } else {
                    Effects { set_switch: Some(self.s2_on), tick_session: true, ..effects(false) }
                }
            },
        }
    }

    fn on_key(&self, msg: &Msg, report: &Option<SessionReport>) -> (e: Effects)
        requires
            self@.wf(),
            msg is KeyDown,
        ensures
            handles(self@, msg, report, self@, e@),
    {
        let k = match msg {
            Msg::KeyDown(k) => k,
            _ => {
                return effects(false);
            },
        };
        let key = k.key.as_str();
        if str_eq(key, "Enter") && (k.ctrl || k.meta) {
            Effects { prevent_default: true, follow_up: Some(FollowUp::Run), ..effects(false) }
        } else if str_eq(key, "Escape") && self.help_open {
            Effects {
                prevent_default: true,
                follow_up: Some(FollowUp::CloseHelp),
                ..effects(false)
            }
        } else if str_eq(key, "Escape") && self.running {
            Effects { prevent_default: true, follow_up: Some(FollowUp::Stop), ..effects(false) }
        } else {
            effects(false)
        }
    }

    fn on_input_submit(&mut self, msg: &Msg, report: &Option<SessionReport>) -> (e: Effects)
        requires
            old(self)@.wf(),
            old(self)@.has_session == report is Some,
            msg is InputSubmit,
        ensures
            final(self)@.wf(),
            handles(old(self)@, msg, report, final(self)@, e@),
    {
        if !self.awaiting_input {
            return effects(false);
        }
        let line = self.input_line.clone();
        self.input_line = String::new();
        let len = self.input_history.len();
        let record = !line.as_str().is_empty() && (len == 0 || !str_eq(
            self.input_history[len - 1].as_str(),
            line.as_str(),
        ));
        let ghost before = self.input_history@;
        if record {
            self.input_history.push(line.clone());
        }
        proof {
            if record {
                assert(self.input_history@.map_values(|s: String| s@) =~= before.map_values(
                    |s: String| s@,
                ).push(line@));
            }
        }
        self.history_cursor = None;
        if let Some(r) = report {
            self.output_len_at_feed = Some(r.clean_output.as_str().len());
        }
        self.awaiting_input = false;
        self.status = Status::Running;
        Effects { feed_line: Some(line), schedule_tick: true, ..effects(true) }
    }

    fn on_history(&mut self, msg: &Msg, report: &Option<SessionReport>) -> (e: Effects)
        requires
            old(self)@.wf(),
            msg is HistoryPrev || msg is HistoryNext,
        ensures
            final(self)@.wf(),
            handles(old(self)@, msg, report, final(self)@, e@),
    {
        let len = self.input_history.len();
        match msg {
            Msg::HistoryPrev => {
                if len == 0 {
                    return effects(false);
                }
                let next = match self.history_cursor {
                    None => 0,
                    Some(i) => if i + 1 < len {
                        i + 1
                    } else {
                        i
                    },
                };
                self.history_cursor = Some(next);
                self.input_line = self.input_history[len - 1 - next].clone();
                effects(true)
            },
            _ => match self.history_cursor {
                None => effects(false),
                Some(c) => {
                    if c == 0 {
                        self.history_cursor = None;
                        self.input_line = String::new();
                    } else {
                        let next = c - 1;
                        self.history_cursor = Some(next);
                        self.input_line = self.input_history[len - 1 - next].clone();
                    }
                    effects(true)
                },
            },
        }
    }

    /// Handle `msg`; `report` is what the caller's session shows, if it
    /// holds one.
    pub fn update(&mut self, msg: Msg, report: Option<SessionReport>) -> (e: Effects)
        requires
            old(self)@.wf(),
            old(self)@.has_session == report is Some,
        ensures
            final(self)@.wf(),
            final(self)@.demos == old(self)@.demos,
            handles(old(self)@, &msg, &report, final(self)@, e@),
    {
        match msg {
            Msg::SelectDemo(_) => self.on_select(&msg, &report),
            Msg::Run | Msg::IncreaseBudget => self.on_run(&msg, &report),
            Msg::Stop => self.on_stop(&msg, &report),
            Msg::Reset => self.on_reset(&msg, &report),
            Msg::Tick => self.on_tick(&msg, &report),
            Msg::KeyDown(_) => self.on_key(&msg, &report),
            Msg::InputSubmit => self.on_input_submit(&msg, &report),
            Msg::HistoryPrev | Msg::HistoryNext => self.on_history(&msg, &report),
            _ => self.on_simple(&msg, &report),
        }
    }

    /// Second half of a tick of a run: `report` is what the session shows
    /// after it was ticked and `led_on` the machine's LED.
    ///
    /// A session that waits for input stops the ticks, unless its output
    /// has not grown since the last line was fed (the interpreter is still
    /// evaluating it); a session that is done ends the run, in error unless
    /// it halted; otherwise the run goes on.
    pub fn after_tick(&mut self, report: SessionReport, led_on: bool) -> (e: Effects)
        requires
            old(self)@.wf(),
            old(self)@.has_session,
        ensures
            final(self)@.wf(),
            ({
                let v = AppView { led_on, ..old(self)@ };
                let w = final(self)@;
                let n = report.instructions;
                let clean = report.clean_output@;
                if report.awaiting_input && still_processing(v.output_len_at_feed, &report) {
                    &&& w == AppView { output: clean, status: StatusView::RunningFor(n), ..v }
                    &&& e@ == EffectsView {
                        schedule_tick: true,
                        clock: Clock::Refresh,
                        ..only_render(true)
                    }
                } else if report.awaiting_input {
                    &&& w == AppView {
                        output_len_at_feed: None,
                        awaiting_input: true,
                        output: clean,
                        status: StatusView::AwaitingInput(n),
                        ..v
                    }
                    &&& e@ == EffectsView { clock: Clock::Refresh, ..only_render(true) }
                } else if report.done {
                    &&& w == v.finish(
                        StatusView::Finished(report.stop_reason@, n),
                        !report.halted,
                        clean,
                    )
                    &&& e@ == EffectsView { clock: Clock::Refresh, ..only_render(true) }
                } else {
                    &&& w == AppView { output: clean, status: StatusView::RunningFor(n), ..v }
                    &&& e@ == EffectsView {
                        schedule_tick: true,
                        clock: Clock::Refresh,
                        ..only_render(true)
                    }
                }
            }),
    {
        self.led_on = led_on;
        let n = report.instructions;
        if report.awaiting_input {
            let still = match self.output_len_at_feed {
                Some(len) => report.clean_output.as_str().len() <= len,
                None => false,
            };
            if still {
                self.output = report.clean_output;
                self.status = Status::RunningFor(n);
                return Effects { schedule_tick: true, clock: Clock::Refresh, ..effects(true) };
            }
            self.output_len_at_feed = None;
            self.awaiting_input = true;
            self.output = report.clean_output;
            self.status = Status::AwaitingInput(n);
            return Effects { clock: Clock::Refresh, ..effects(true) };
        }
        if report.done {
            let halted = report.halted;
            let reason = report.stop_reason.clone();
            let some = Some(report);
            self.finish(Status::Finished(reason, n), !halted, &some);
            Effects { clock: Clock::Refresh, ..effects(true) }
        } else {
            self.output = report.clean_output;
            self.status = Status::RunningFor(n);
            Effects { schedule_tick: true, clock: Clock::Refresh, ..effects(true) }
        }
    }
}

/// The position of the default demo.
pub open spec fn default_demo_index_spec() -> int {
    match crate::demos::position_of(crate::demos::catalog_names(), "hello"@) {
        Some(i) => i,
        None => 0,
    }
}

/// Whether no entry of `history` repeats the entry just before it.
pub open spec fn no_adjacent_repeats(history: Seq<Seq<char>>) -> bool {
    forall|i: int| 0 <= i < history.len() - 1 ==> #[trigger] history[i] != history[i + 1]
}

/// Whether every entry of `history` is non-empty.
pub open spec fn all_nonempty(history: Seq<Seq<char>>) -> bool {
    forall|i: int| 0 <= i < history.len() ==> #[trigger] history[i].len() > 0
}

/// Submitting a line never records an empty line, nor the newest entry a
/// second time: a history without empty entries and without an entry
/// repeated back to back stays so.
pub proof fn lemma_submit_keeps_history_clean(
    v: AppView,
    report: Option<SessionReport>,
    w: AppView,
    e: EffectsView,
)
    requires
        handles(v, &Msg::InputSubmit, &report, w, e),
        no_adjacent_repeats(v.history),
        all_nonempty(v.history),
    ensures
        no_adjacent_repeats(w.history),
        all_nonempty(w.history),
        w.history.len() <= v.history.len() + 1,
{
    if v.awaiting_input {
        let line = v.input_line;
        if line.len() > 0 && (v.history.len() == 0 || v.history.last() != line) {
            let h = v.history.push(line);
            assert(w.history == h);
            assert forall|i: int| 0 <= i < h.len() - 1 implies #[trigger] h[i] != h[i + 1] by {
                if i + 1 == v.history.len() {
                    assert(h[i] == v.history.last());
                } else {
                    assert(h[i] == v.history[i] && h[i + 1] == v.history[i + 1]);
                }
            }
            assert forall|i: int| 0 <= i < h.len() implies #[trigger] h[i].len() > 0 by {
                if i < v.history.len() {
                    assert(h[i] == v.history[i]);
                }
            }
        }
    }
}

/// Stepping back in the history and then forward again returns to where
/// the walk was: from a fresh line to a fresh, empty line, and from an
/// entry that is not the oldest back to that entry.
pub proof fn lemma_history_prev_then_next(v: AppView)
    requires
        v.wf(),
        v.history.len() > 0,
    ensures
        v.history_cursor is None ==> {
            &&& v.history_prev().history_next().history_cursor is None
            &&& v.history_prev().history_next().input_line == Seq::<char>::empty()
        },
        v.history_cursor matches Some(c) ==> (c + 1 < v.history.len() ==> {
            &&& v.history_prev().history_next().history_cursor == v.history_cursor
            &&& v.history_prev().history_next().input_line == v.history[v.history.len() - 1 - c]
        }),
{
}

/// Stepping back in the history shows an entry of it, and the newest one
/// first.
pub proof fn lemma_history_prev_shows_entry(v: AppView)
    requires
        v.wf(),
        v.history.len() > 0,
    ensures
        v.history_prev().history_cursor matches Some(c) && 0 <= c < v.history.len()
            && v.history_prev().input_line == v.history[v.history.len() - 1 - c],
        v.history_cursor is None ==> v.history_prev().input_line == v.history.last(),
{
}

/// Raising the budget never lowers it: it is four times the old budget
/// unless that overflows, and then the largest count.
pub proof fn lemma_raised_budget_not_lower(max: u64)
    ensures
        raised_budget(max) >= max,
        max as int * 4 <= u64::MAX ==> raised_budget(max) == max as int * 4,
        max as int * 4 > u64::MAX ==> raised_budget(max) == u64::MAX,
{
}

/// `Clear` empties the output panel and keeps the source being edited.
pub proof fn lemma_clear_keeps_source(
    v: AppView,
    report: Option<SessionReport>,
    w: AppView,
    e: EffectsView,
)
    requires
        handles(v, &Msg::Clear, &report, w, e),
    ensures
        w.source == v.source,
        w.output.len() == 0,
        w.running == v.running,
{
}

/// `Reset` puts the selected demo's own source back in the editor, with the
/// default budget and the hardware panel cleared.
pub proof fn lemma_reset_reloads_source(
    v: AppView,
    report: Option<SessionReport>,
    w: AppView,
    e: EffectsView,
)
    requires
        v.wf(),
        handles(v, &Msg::Reset, &report, w, e),
    ensures
        w.source == v.demos[v.selected].source@,
        w.selected == v.selected,
        w.max_instrs == DEFAULT_MAX_INSTRS,
        !w.running && !w.has_session && !w.s2_on && !w.led_on,
        e.drop_session,
{
}

/// A run always starts with an empty output and no input history, asking
/// the caller for a session of the selected demo's mode on the selected
/// demo's auxiliary files joined with the editor's source.
pub proof fn lemma_run_starts_fresh(
    v: AppView,
    report: Option<SessionReport>,
    w: AppView,
    e: EffectsView,
)
    requires
        handles(v, &Msg::Run, &report, w, e),
    ensures
        w.running && w.has_session,
        w.source == v.source,
        w.output.len() == 0,
        w.history.len() == 0,
        w.max_instrs == DEFAULT_MAX_INSTRS,
        e.start_session == Some((v.run_source(), v.selected_interactive())),
        e.schedule_tick,
{
}

/// What a key pressed in the REPL input row does: `Enter` submits the line
/// and the up and down arrows walk the history, each keeping the browser
/// from handling the key itself (the `bool`); any other key is handled as
/// a key of the page.
pub fn input_row_key(key: KeyPress) -> (r: (Msg, bool))
    ensures
        key.key@ == "Enter"@ ==> r.0 is InputSubmit && r.1,
        key.key@ == "ArrowUp"@ ==> r.0 is HistoryPrev && r.1,
        key.key@ == "ArrowDown"@ ==> r.0 is HistoryNext && r.1,
        key.key@ != "Enter"@ && key.key@ != "ArrowUp"@ && key.key@ != "ArrowDown"@ ==> r.0
            == Msg::KeyDown(key) && !r.1,
{
    proof {
        reveal_strlit("Enter");
        reveal_strlit("ArrowUp");
        reveal_strlit("ArrowDown");
        assert("Enter"@.len() == 5 && "ArrowUp"@.len() == 7 && "ArrowDown"@.len() == 9);
    }
    let enter = str_eq(key.key.as_str(), "Enter");
    let up = str_eq(key.key.as_str(), "ArrowUp");
    let down = str_eq(key.key.as_str(), "ArrowDown");
    if enter {
        (Msg::InputSubmit, true)
    } else if up {
        (Msg::HistoryPrev, true)
    } else if down {
        (Msg::HistoryNext, true)
    } else {
        (Msg::KeyDown(key), false)
    }
}

/// Whether `c` is a decimal digit.
pub open spec fn is_digit(c: char) -> bool {
    '0' <= c <= '9'
}

/// Whether every character of `s` is a decimal digit.
pub open spec fn all_digits(s: Seq<char>) -> bool {
    forall|i: int| 0 <= i < s.len() ==> is_digit(#[trigger] s[i])
}

/// The number the decimal digits `s` write.
pub open spec fn digits_value(s: Seq<char>) -> nat
    decreases s.len(),
{
    if s.len() == 0 {
        0
    } else {
        digits_value(s.drop_last()) * 10 + (s.last() as nat - '0' as nat) as nat
    }
}

/// `s` without one leading `+`.
pub open spec fn unsigned_digits(s: Seq<char>) -> Seq<char> {
    if s.len() > 0 && s[0] == '+' {
        s.drop_first()
    } else {
        s
    }
}

/// The `usize` that `s` writes in decimal, with an optional leading `+`,
/// as `str::parse::<usize>` reads it; `None` for anything else or a number
/// past `usize::MAX`.
pub open spec fn parsed_index(s: Seq<char>) -> Option<nat> {
    let d = unsigned_digits(s);
    if d.len() > 0 && all_digits(d) && digits_value(d) <= usize::MAX {
        Some(digits_value(d))
    } else {
        None
    }
}

proof fn lemma_digits_value_grows(s: Seq<char>, i: int, j: int)
    requires
        0 <= i <= j <= s.len(),
        all_digits(s),
    ensures
        digits_value(s.take(i)) <= digits_value(s.take(j)),
    decreases j - i,
{
    if i < j {
        lemma_digits_value_grows(s, i, j - 1);
        assert(s.take(j).drop_last() =~= s.take(j - 1));
        assert(is_digit(s[j - 1]));
    }
}

proof fn lemma_digits_step(d: Seq<char>, k: int)
    requires
        0 <= k < d.len(),
        all_digits(d.take(k)),
        is_digit(d[k]),
    ensures
        all_digits(d.take(k + 1)),
        digits_value(d.take(k + 1)) == digits_value(d.take(k)) * 10 + (d[k] as nat - '0' as nat),
{
    assert(d.take(k + 1).drop_last() =~= d.take(k));
    assert forall|j: int| 0 <= j < k + 1 implies is_digit(#[trigger] d.take(k + 1)[j]) by {
        if j < k {
            assert(d.take(k + 1)[j] == d.take(k)[j]);
        }
    }
}

/// The catalog position a dropdown value names, `0` when it names none:
/// the value read as [`parsed_index`] reads it.
pub fn parse_index(s: &str) -> (r: usize)
    ensures
        r == match parsed_index(s@) {
            Some(n) => n,
            None => 0,
        },
{
    let cs = str_chars(s);
    let start: usize = if cs.len() > 0 && cs[0] == '+' {
        1
    } else {
        0
    };
    let ghost d = unsigned_digits(s@);
    assert(d =~= cs@.skip(start as int));
    if start == cs.len() {
        return 0;
    }
    let mut value: usize = 0;
    let mut i: usize = start;
    assert(d.take(0) =~= Seq::<char>::empty());
    while i < cs.len()
        invariant
            start <= i <= cs@.len(),
            start < cs@.len(),
            cs@ == s@,
            d == cs@.skip(start as int),
            d == unsigned_digits(s@),
            all_digits(d.take(i - start)),
            value == digits_value(d.take(i - start)),
        decreases cs@.len() - i,
    {
        let c = cs[i];
        let k: usize = i - start;
        assert(d[k as int] == c);
        if !('0' <= c && c <= '9') {
            assert(!is_digit(d[k as int]));
            assert(!all_digits(d));
            return 0;
        }
        let digit: usize = (c as u32 - '0' as u32) as usize;
        proof {
            lemma_digits_step(d, k as int);
        }
        if value > (usize::MAX - digit) / 10 {
            assert(value * 10 + digit > usize::MAX) by (nonlinear_arith)
                requires
                    value > (usize::MAX - digit) / 10,
                    digit <= 9,
            ;
            proof {
                if all_digits(d) {
                    lemma_digits_value_grows(d, k + 1, d.len() as int);
                    assert(d.take(d.len() as int) =~= d);
                }
            }
            return 0;
        }
        assert(value * 10 + digit <= usize::MAX) by (nonlinear_arith)
            requires
                value <= (usize::MAX - digit) / 10,
                digit <= 9,
        ;
        value = value * 10 + digit;
        i += 1;
    }
    assert(d.take(d.len() as int) =~= d);
    value
}

/// The machine's S2 switch always follows the page's S2 state: whenever
/// handling a message asks the caller to set the switch, it asks for the
/// page's S2 state after the message; every tick that has the session
/// ticked sets the switch first; and a change of S2 that keeps the session
/// reaches the machine.
pub proof fn lemma_switch_follows_s2(
    v: AppView,
    msg: Msg,
    report: Option<SessionReport>,
    w: AppView,
    e: EffectsView,
)
    requires
        handles(v, &msg, &report, w, e),
    ensures
        e.set_switch matches Some(on) ==> on == w.s2_on,
        e.tick_session ==> e.set_switch == Some(w.s2_on),
        w.s2_on != v.s2_on && !e.drop_session ==> e.set_switch == Some(w.s2_on),
{
}

/// A tick of a running session that has budget left (or reads input) has
/// the session ticked, with the machine's switch set to the page's S2
/// state, and changes nothing on the page.
pub proof fn lemma_tick_sets_switch(v: AppView, report: SessionReport, w: AppView, e: EffectsView)
    requires
        v.wf(),
        v.running,
        v.has_session,
        v.selected_interactive() || report.instructions < v.max_instrs,
        handles(v, &Msg::Tick, &Some(report), w, e),
    ensures
        e.tick_session,
        e.set_switch == Some(v.s2_on),
        w == v,
{
}

/// Submitting while the session waits for input feeds it exactly the
/// line in the input row, whatever the line is (an empty line too), clears
/// the row and goes on ticking; a line is recorded in the history only
/// when it is fed. Submitting while no input is awaited feeds nothing.
pub proof fn lemma_submit_feeds_line(
    v: AppView,
    report: Option<SessionReport>,
    w: AppView,
    e: EffectsView,
)
    requires
        handles(v, &Msg::InputSubmit, &report, w, e),
    ensures
        v.awaiting_input ==> {
            &&& e.feed_line == Some(v.input_line)
            &&& w.input_line.len() == 0
            &&& !w.awaiting_input
            &&& e.schedule_tick
        },
        !v.awaiting_input ==> e.feed_line is None && w == v,
        w.history.len() > v.history.len() ==> e.feed_line == Some(w.history.last()),
        e.feed_line is None ==> w.history == v.history,
{
}

} // verus!
