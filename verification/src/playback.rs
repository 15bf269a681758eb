use vstd::prelude::*;

use crate::interpreter::{
    init_state, machine_wf, step_enabled, step_spec, Interpreter, MachineState,
};
use crate::token::{lemma_line_col_bounds, line_of};

verus! {

/// The playback run-mode: nothing executed yet, stopped at program end,
/// manually stepping, or timer-driven auto-running.
#[derive(Debug, Clone, Copy, PartialEq, Eq, Structural)]
pub enum State {
    Idle,
    Stop,
    Play,
    AutoPlay,
}

/// Whether keystrokes currently edit the pending-input buffer.
#[derive(Debug, Clone, Copy, PartialEq, Eq, Structural)]
pub enum EditState {
    Inactive,
    EditInput,
}

/// The focusable controls of the surrounding user interface.
#[derive(Debug, Clone, Copy, PartialEq, Eq, Structural)]
pub enum SelectItem {
    Source,
    Input,
    Memory,
    Output,
    Reset,
    Start,
    Pause,
    Step,
    Speed,
}

/// Auto-run speed, ordered slowest to fastest.
#[derive(Debug, Clone, Copy, PartialEq, Eq, Structural)]
pub enum Speed {
    VerySlow,
    Slow,
    Normal,
    Fast,
    VeryFast,
}

/// A cycling direction for focus, speed and scroll commands.
#[derive(Debug, Clone, Copy, PartialEq, Eq, Structural)]
pub enum Direction {
    Forward,
    Backward,
}

/// The abstract commands the host's keybinding layer produces.
pub enum Command {
    Quit,
    FocusNext,
    FocusPrev,
    ScrollSource(Direction),
    SetSpeed(Direction),
    EnterEditInput,
    ExitEditInput(String),
    Reset,
    Start,
    Pause,
    Step,
    SpaceToggleRun,
}

impl Speed {
    /// The delay between ticks for this speed, in milliseconds.
    pub open spec fn sleep_duration_spec(self) -> u64 {
        match self {
            Speed::VerySlow => 500,
            Speed::Slow => 200,
            Speed::Normal => 100,
            Speed::Fast => 50,
            Speed::VeryFast => 20,
        }
    }

    pub fn sleep_duration(&self) -> (r: u64)
        ensures
            r == self.sleep_duration_spec(),
    {
        match self {
            Speed::VerySlow => 500,
            Speed::Slow => 200,
            Speed::Normal => 100,
            Speed::Fast => 50,
            Speed::VeryFast => 20,
        }
    }

    pub open spec fn next_spec(self) -> Speed {
        match self {
            Speed::VerySlow => Speed::Slow,
            Speed::Slow => Speed::Normal,
            Speed::Normal => Speed::Fast,
            Speed::Fast => Speed::VeryFast,
            Speed::VeryFast => Speed::VerySlow,
        }
    }

    /// The next speed, cycling around at the fastest.
    pub fn next(&self) -> (r: Speed)
        ensures
            r == self.next_spec(),
    {
        match self {
            Speed::VerySlow => Speed::Slow,
            Speed::Slow => Speed::Normal,
            Speed::Normal => Speed::Fast,
            Speed::Fast => Speed::VeryFast,
            Speed::VeryFast => Speed::VerySlow,
        }
    }

    pub open spec fn prev_spec(self) -> Speed {
        match self {
            Speed::VerySlow => Speed::VeryFast,
            Speed::Slow => Speed::VerySlow,
            Speed::Normal => Speed::Slow,
            Speed::Fast => Speed::Normal,
            Speed::VeryFast => Speed::Fast,
        }
    }

    /// The previous speed, cycling around at the slowest.
    pub fn prev(&self) -> (r: Speed)
        ensures
            r == self.prev_spec(),
    {
        match self {
            Speed::VerySlow => Speed::VeryFast,
            Speed::Slow => Speed::VerySlow,
            Speed::Normal => Speed::Slow,
            Speed::Fast => Speed::Normal,
            Speed::VeryFast => Speed::Fast,
        }
    }
}

impl SelectItem {
    /// Position of the item in the fixed focus cycle.
    pub open spec fn index_spec(self) -> int {
        match self {
            SelectItem::Source => 0,
            SelectItem::Input => 1,
            SelectItem::Memory => 2,
            SelectItem::Output => 3,
            SelectItem::Reset => 4,
            SelectItem::Start => 5,
            SelectItem::Pause => 6,
            SelectItem::Step => 7,
            SelectItem::Speed => 8,
        }
    }

    pub open spec fn from_index(i: int) -> SelectItem {
        if i == 0 {
            SelectItem::Source
        } else if i == 1 {
            SelectItem::Input
        } else if i == 2 {
            SelectItem::Memory
        } else if i == 3 {
            SelectItem::Output
        } else if i == 4 {
            SelectItem::Reset
        } else if i == 5 {
            SelectItem::Start
        } else if i == 6 {
            SelectItem::Pause
        } else if i == 7 {
            SelectItem::Step
        } else {
            SelectItem::Speed
        }
    }

    fn index(&self) -> (r: usize)
        ensures
            r as int == self.index_spec(),
    {
        match self {
            SelectItem::Source => 0,
            SelectItem::Input => 1,
            SelectItem::Memory => 2,
            SelectItem::Output => 3,
            SelectItem::Reset => 4,
            SelectItem::Start => 5,
            SelectItem::Pause => 6,
            SelectItem::Step => 7,
            SelectItem::Speed => 8,
        }
    }

    fn item_at(i: usize) -> (r: SelectItem)
        ensures
            r == Self::from_index(i as int),
    {
        if i == 0 {
            SelectItem::Source
        } else if i == 1 {
            SelectItem::Input
        } else if i == 2 {
            SelectItem::Memory
        } else if i == 3 {
            SelectItem::Output
        } else if i == 4 {
            SelectItem::Reset
        } else if i == 5 {
            SelectItem::Start
        } else if i == 6 {
            SelectItem::Pause
        } else if i == 7 {
            SelectItem::Step
        } else {
            SelectItem::Speed
        }
    }

    /// Whether the item can take focus in the given run-mode.
    pub open spec fn allowed_spec(self, state: State) -> bool {
        match state {
            State::Idle => !(self == SelectItem::Reset || self == SelectItem::Pause),
            State::Stop => !(self == SelectItem::Start || self == SelectItem::Pause || self
                == SelectItem::Step || self == SelectItem::Speed),
            State::Play => self != SelectItem::Pause,
            State::AutoPlay => self != SelectItem::Start,
        }
    }

    pub fn allowed(&self, state: State) -> (r: bool)
        ensures
            r == self.allowed_spec(state),
    {
        match state {
            State::Idle => !(*self == SelectItem::Reset || *self == SelectItem::Pause),
            State::Stop => !(*self == SelectItem::Start || *self == SelectItem::Pause || *self
                == SelectItem::Step || *self == SelectItem::Speed),
            State::Play => *self != SelectItem::Pause,
            State::AutoPlay => *self != SelectItem::Start,
        }
    }

    /// The first item at or cyclically after position `i` that is
    /// allowed in `state`, searched with bounded fuel.
    pub open spec fn next_allowed(i: int, state: State, tries: nat) -> SelectItem
        decreases tries,
    {
        if tries == 0 {
            Self::from_index(i)
        } else if Self::from_index(i).allowed_spec(state) {
            Self::from_index(i)
        } else {
            Self::next_allowed((i + 1) % 9, state, (tries - 1) as nat)
        }
    }

    /// The first item at or cyclically before position `i` that is
    /// allowed in `state`, searched with bounded fuel.
    pub open spec fn prev_allowed(i: int, state: State, tries: nat) -> SelectItem
        decreases tries,
    {
        if tries == 0 {
            Self::from_index(i)
        } else if Self::from_index(i).allowed_spec(state) {
            Self::from_index(i)
        } else {
            Self::prev_allowed((i + 8) % 9, state, (tries - 1) as nat)
        }
    }

    pub open spec fn next_in_state_spec(self, state: State) -> SelectItem {
        Self::next_allowed((self.index_spec() + 1) % 9, state, 9)
    }

    pub open spec fn prev_in_state_spec(self, state: State) -> SelectItem {
        Self::prev_allowed((self.index_spec() + 8) % 9, state, 9)
    }

    /// Cycles focus forward to the next item enabled in the run-mode.
    pub fn next_in_state(&self, state: State) -> (r: SelectItem)
        ensures
            r == self.next_in_state_spec(state),
    {
        let mut i: usize = (self.index() + 1) % 9;
        let mut tries: usize = 9;
        loop
            invariant
                i < 9,
                tries <= 9,
                self.next_in_state_spec(state) == Self::next_allowed(
                    i as int,
                    state,
                    tries as nat,
                ),
            decreases tries,
        {
            let item = Self::item_at(i);
            if tries == 0 || item.allowed(state) {
                return item;
            }
            i = (i + 1) % 9;
            tries = tries - 1;
        }
    }

    /// Cycles focus backward to the previous item enabled in the
    /// run-mode.
    pub fn prev_in_state(&self, state: State) -> (r: SelectItem)
        ensures
            r == self.prev_in_state_spec(state),
    {
        let mut i: usize = (self.index() + 8) % 9;
        let mut tries: usize = 9;
        loop
            invariant
                i < 9,
                tries <= 9,
                self.prev_in_state_spec(state) == Self::prev_allowed(
                    i as int,
                    state,
                    tries as nat,
                ),
            decreases tries,
        {
            let item = Self::item_at(i);
            if tries == 0 || item.allowed(state) {
                return item;
            }
            i = (i + 8) % 9;
            tries = tries - 1;
        }
    }
}

/// Number of lines a source text has under newline splitting: a final
/// newline closes the last line rather than opening an empty one.
pub open spec fn line_count(s: Seq<char>) -> int {
    if s.len() == 0 {
        0
    } else {
        line_of(s, s.len() as int) + if s[s.len() - 1] == '\n' {
            0int
        } else {
            1int
        }
    }
}

/// Counts the lines of a source text.
pub fn count_lines(s: &str) -> (r: usize)
    ensures
        r as int == line_count(s@),
{
    let n = s.unicode_len();
    if n == 0 {
        return 0;
    }
    let mut cnt: usize = 0;
    let mut k: usize = 0;
    while k < n
        invariant
            n == s@.len(),
            0 <= k <= n,
            cnt as int == line_of(s@, k as int),
            cnt <= k,
        decreases n - k,
    {
        let c = s.get_char(k);
        if c == '\n' {
            cnt = cnt + 1;
        }
        k = k + 1;
    }
    let last = s.get_char(n - 1);
    if last == '\n' {
        cnt
    } else {
        proof {
            lemma_line_col_bounds(s@, n as int - 1);
        }
        cnt + 1
    }
}

/// Abstract state of the playback controller.
#[verifier::ext_equal]
pub ghost struct ControllerView {
    pub state: State,
    pub edit_state: EditState,
    pub selected: SelectItem,
    pub source: Seq<char>,
    pub num_lines: int,
    pub scroll: int,
    pub input_text: Seq<char>,
    pub interp: MachineState,
    pub speed: Speed,
    pub quit: bool,
}

/// Structural invariant of the controller: a well-formed engine, a line
/// count that matches the source, and a scroll offset inside it.
pub open spec fn controller_wf(v: ControllerView) -> bool {
    &&& machine_wf(v.interp)
    &&& v.num_lines == line_count(v.source)
    &&& v.scroll == 0 || v.scroll < v.num_lines
}

pub open spec fn quit_spec(v: ControllerView) -> ControllerView {
    ControllerView { quit: true, ..v }
}

pub open spec fn focus_next_spec(v: ControllerView) -> ControllerView {
    ControllerView { selected: v.selected.next_in_state_spec(v.state), ..v }
}

pub open spec fn focus_prev_spec(v: ControllerView) -> ControllerView {
    ControllerView { selected: v.selected.prev_in_state_spec(v.state), ..v }
}

/// Scrolling moves one line within the source, saturating at both ends.
pub open spec fn scroll_spec(v: ControllerView, d: Direction) -> ControllerView {
    match d {
        Direction::Forward => if v.scroll + 1 < v.num_lines {
            ControllerView { scroll: v.scroll + 1, ..v }
        } else {
            v
        },
        Direction::Backward => if v.scroll > 0 {
            ControllerView { scroll: v.scroll - 1, ..v }
        } else {
            v
        },
    }
}

pub open spec fn set_speed_spec(v: ControllerView, d: Direction) -> ControllerView {
    match d {
        Direction::Forward => ControllerView { speed: v.speed.next_spec(), ..v },
        Direction::Backward => ControllerView { speed: v.speed.prev_spec(), ..v },
    }
}

/// Entering input editing is allowed only while idle with the input
/// control focused; it also rebuilds the engine from the current
/// source and committed input.
pub open spec fn enter_edit_spec(v: ControllerView) -> ControllerView {
    if v.state == State::Idle && v.selected == SelectItem::Input {
        ControllerView {
            edit_state: EditState::EditInput,
            interp: init_state(v.source, v.input_text),
            ..v
        }
    } else {
        v
    }
}

/// Committing an edit stores the text and hands it to the engine.
pub open spec fn exit_edit_spec(v: ControllerView, text: Seq<char>) -> ControllerView {
    ControllerView {
        edit_state: EditState::Inactive,
        input_text: text,
        interp: MachineState { input: text, ..v.interp },
        ..v
    }
}

/// Reset, from any state: back to Idle, focus on Start, and a freshly
/// built engine from the current source and committed input.
pub open spec fn reset_spec(v: ControllerView) -> ControllerView {
    ControllerView {
        state: State::Idle,
        selected: SelectItem::Start,
        interp: init_state(v.source, v.input_text),
        ..v
    }
}

/// Start begins auto-running unless the program has already ended.
pub open spec fn start_spec(v: ControllerView) -> ControllerView {
    if v.interp.cur < v.interp.tokens.len() {
        ControllerView { state: State::AutoPlay, selected: SelectItem::Pause, ..v }
    } else {
        v
    }
}

/// Pause suspends auto-running back to manual stepping.
pub open spec fn pause_spec(v: ControllerView) -> ControllerView {
    if v.interp.cur < v.interp.tokens.len() {
        ControllerView { state: State::Play, selected: SelectItem::Start, ..v }
    } else {
        v
    }
}

/// A manual step: at program end it stops playback; otherwise the
/// engine performs exactly one step.
pub open spec fn step_cmd_spec(v: ControllerView) -> ControllerView {
    if v.interp.cur >= v.interp.tokens.len() {
        ControllerView { state: State::Stop, selected: SelectItem::Reset, ..v }
    } else {
        ControllerView { state: State::Play, interp: step_spec(v.interp), ..v }
    }
}

/// The space key toggles between auto-running and manual stepping.
pub open spec fn toggle_spec(v: ControllerView) -> ControllerView {
    match v.state {
        State::Idle | State::Play => ControllerView { state: State::AutoPlay, ..v },
        State::AutoPlay => ControllerView { state: State::Play, ..v },
        State::Stop => v,
    }
}

/// Where focus lands when auto-run stops at program end: controls that
/// vanish in the stopped mode yield to Reset.
pub open spec fn stop_selected(sel: SelectItem) -> SelectItem {
    match sel {
        SelectItem::Start | SelectItem::Pause | SelectItem::Step | SelectItem::Speed
            => SelectItem::Reset,
        _ => sel,
    }
}

/// A timer tick acts only while auto-running: one engine step, or a
/// transition to Stop once the program has ended.
pub open spec fn tick_spec(v: ControllerView) -> ControllerView {
    if v.state == State::AutoPlay {
        if v.interp.cur >= v.interp.tokens.len() {
            ControllerView { state: State::Stop, selected: stop_selected(v.selected), ..v }
        } else {
            ControllerView { interp: step_spec(v.interp), ..v }
        }
    } else {
        v
    }
}

/// The effect of one abstract command on the controller state.
pub open spec fn command_spec(v: ControllerView, cmd: &Command) -> ControllerView {
    match cmd {
        Command::Quit => quit_spec(v),
        Command::FocusNext => focus_next_spec(v),
        Command::FocusPrev => focus_prev_spec(v),
        Command::ScrollSource(d) => scroll_spec(v, *d),
        Command::SetSpeed(d) => set_speed_spec(v, *d),
        Command::EnterEditInput => enter_edit_spec(v),
        Command::ExitEditInput(text) => exit_edit_spec(v, text@),
        Command::Reset => reset_spec(v),
        Command::Start => start_spec(v),
        Command::Pause => pause_spec(v),
        Command::Step => step_cmd_spec(v),
        Command::SpaceToggleRun => toggle_spec(v),
    }
}

/// The views of a sequence of string slices.
pub open spec fn str_views(parts: Seq<&str>) -> Seq<Seq<char>> {
    parts.map_values(|p: &str| p@)
}

/// The parts joined with the separator between them.
pub open spec fn join_spec(parts: Seq<Seq<char>>, sep: Seq<char>) -> Seq<char>
    decreases parts.len(),
{
    if parts.len() == 0 {
        Seq::empty()
    } else if parts.len() == 1 {
        parts[0]
    } else {
        join_spec(parts.drop_last(), sep) + sep + parts.last()
    }
}

/// The help entries shown for the current focus, edit and run modes:
/// the general keys, then the keys of the focused control where the
/// run-mode enables them, then the space toggle.
pub open spec fn help_entries(v: ControllerView) -> Seq<Seq<char>> {
    let base = seq!["<Esc> quit app"@, "<Tab/BackTab> next/prev"@];
    let with_item = match v.selected {
        SelectItem::Source => base.push("<j/k> scroll"@),
        SelectItem::Input => if v.edit_state == EditState::EditInput {
            seq!["<Esc> exit editing"@]
        } else if v.state == State::Idle {
            base.push("<e> enter editing"@)
        } else {
            base
        },
        SelectItem::Memory => base,
        SelectItem::Output => base,
        SelectItem::Reset => if v.state == State::Stop || v.state == State::Play || v.state
            == State::AutoPlay {
            base.push("<Enter> reset"@)
        } else {
            base
        },
        SelectItem::Start => if v.state == State::Idle || v.state == State::Play {
            base.push("<Enter> start"@)
        } else {
            base
        },
        SelectItem::Pause => if v.state == State::AutoPlay {
            base.push("<Enter> pause"@)
        } else {
            base
        },
        SelectItem::Step => if v.state == State::Idle || v.state == State::Play || v.state
            == State::AutoPlay {
            base.push("<Enter> step"@)
        } else {
            base
        },
        SelectItem::Speed => base.push("<j/k> select"@),
    };
    match v.state {
        State::Idle | State::Play => with_item.push("<Space> start"@),
        State::AutoPlay => with_item.push("<Space> pause"@),
        State::Stop => with_item,
    }
}

/// The whole help line: the entries joined with a comma.
pub open spec fn help_msg_spec(v: ControllerView) -> Seq<char> {
    join_spec(help_entries(v), ", "@)
}

/// Joins string slices with a comma separator.
fn join_parts(parts: &Vec<&str>) -> (r: String)
    ensures
        r@ == join_spec(str_views(parts@), ", "@),
{
    let ghost views = str_views(parts@);
    let mut r = String::new();
    let mut i: usize = 0;
    while i < parts.len()
        invariant
            views == str_views(parts@),
            0 <= i <= parts@.len(),
            r@ == join_spec(views.take(i as int), ", "@),
        decreases parts@.len() - i,
    {
        if i > 0 {
            r.append(", ");
        }
        r.append(parts[i]);
        proof {
            if i == 0 {
                assert(views.take(1) =~= seq![views[0]]);
            } else {
                assert(views.take(i + 1).drop_last() =~= views.take(i as int));
                assert(views.take(i + 1).last() == views[i as int]);
            }
            assert(r@ =~= join_spec(views.take(i + 1), ", "@));
        }
        i = i + 1;
    }
    proof {
        assert(views.take(parts@.len() as int) =~= views);
    }
    r
}

/// Playback law: starting with instructions remaining begins
/// auto-running; each tick while auto-running performs exactly one
/// engine step; once the program has ended a tick moves to Stop without
/// touching the engine, and every further tick is a no-op.
pub proof fn lemma_playback_autorun(v: ControllerView)
    ensures
        v.interp.cur < v.interp.tokens.len() ==> start_spec(v).state == State::AutoPlay,
        v.state == State::AutoPlay && v.interp.cur < v.interp.tokens.len() ==> tick_spec(v).interp
            == step_spec(v.interp) && tick_spec(v).state == State::AutoPlay,
        v.state == State::AutoPlay && v.interp.cur >= v.interp.tokens.len() ==> tick_spec(v).state
            == State::Stop && tick_spec(v).interp == v.interp,
        v.state != State::AutoPlay ==> tick_spec(v) == v,
        tick_spec(v).state == State::Stop ==> tick_spec(tick_spec(v)) == tick_spec(v),
{
}

/// Playback law: Reset, issued from any state, returns to Idle with a
/// freshly constructed engine whose step count is zero.
pub proof fn lemma_playback_reset(v: ControllerView)
    ensures
        reset_spec(v).state == State::Idle,
        reset_spec(v).interp == init_state(v.source, v.input_text),
        reset_spec(v).interp.steps == 0,
        reset_spec(v).source == v.source,
        reset_spec(v).input_text == v.input_text,
{
}

/// The playback controller: owns the engine and the run-mode, and turns
/// abstract commands and timer ticks into engine steps.
pub struct Controller {
    state: State,
    edit_state: EditState,
    selected: SelectItem,
    source: String,
    num_lines: usize,
    scroll: usize,
    input_text: String,
    interpreter: Interpreter,
    speed: Speed,
    quit: bool,
}

impl View for Controller {
    type V = ControllerView;

    closed spec fn view(&self) -> ControllerView {
        ControllerView {
            state: self.state,
            edit_state: self.edit_state,
            selected: self.selected,
            source: self.source@,
            num_lines: self.num_lines as int,
            scroll: self.scroll as int,
            input_text: self.input_text@,
            interp: self.interpreter@,
            speed: self.speed,
            quit: self.quit,
        }
    }
}

impl Controller {
    pub open spec fn wf(self) -> bool {
        controller_wf(self@)
    }

    /// A fresh controller: idle, focus on the source view, normal
    /// speed, empty committed input, engine built from the source.
    pub fn new(source: String) -> (r: Controller)
        ensures
            r.wf(),
            r@.state == State::Idle,
            r@.edit_state == EditState::Inactive,
            r@.selected == SelectItem::Source,
            r@.source == source@,
            r@.num_lines == line_count(source@),
            r@.scroll == 0,
            r@.input_text == Seq::<char>::empty(),
            r@.interp == init_state(source@, Seq::<char>::empty()),
            r@.speed == Speed::Normal,
            r@.quit == false,
    {
        let num_lines = count_lines(source.as_str());
        let interpreter = Interpreter::new(source.as_str(), "");
        proof {
            reveal_strlit("");
            assert(""@ =~= Seq::<char>::empty());
        }
        Controller {
            state: State::Idle,
            edit_state: EditState::Inactive,
            selected: SelectItem::Source,
            source,
            num_lines,
            scroll: 0,
            input_text: String::new(),
            interpreter,
            speed: Speed::Normal,
            quit: false,
        }
    }

    pub fn state(&self) -> (r: State)
        ensures
            r == self@.state,
    {
        self.state
    }

    pub fn edit_state(&self) -> (r: EditState)
        ensures
            r == self@.edit_state,
    {
        self.edit_state
    }

    pub fn selected(&self) -> (r: SelectItem)
        ensures
            r == self@.selected,
    {
        self.selected
    }

    pub fn speed(&self) -> (r: Speed)
        ensures
            r == self@.speed,
    {
        self.speed
    }

    pub fn scroll_offset(&self) -> (r: usize)
        ensures
            r as int == self@.scroll,
    {
        self.scroll
    }

    pub fn quit(&self) -> (r: bool)
        ensures
            r == self@.quit,
    {
        self.quit
    }

    pub fn source(&self) -> (r: &str)
        ensures
            r@ == self@.source,
    {
        self.source.as_str()
    }

    pub fn input_text(&self) -> (r: &str)
        ensures
            r@ == self@.input_text,
    {
        self.input_text.as_str()
    }

    /// Read-only access to the engine, for the rendering collaborator.
    pub fn interpreter(&self) -> (r: &Interpreter)
        ensures
            r@ == self@.interp,
            self.wf() ==> r.wf(),
    {
        &self.interpreter
    }

    /// Whether the engine can take one more step without hitting a
    /// fatal condition.
    pub fn can_step(&self) -> (r: bool)
        requires
            self.wf(),
        ensures
            r == (step_enabled(self@.interp) && self@.interp.steps < usize::MAX),
    {
        self.interpreter.can_step()
    }

    fn reset_interpreter(&mut self)
        requires
            old(self).wf(),
        ensures
            final(self).wf(),
            final(self)@ == (ControllerView {
                interp: init_state(old(self)@.source, old(self)@.input_text),
                ..old(self)@
            }),
    {
        self.interpreter = Interpreter::new(self.source.as_str(), self.input_text.as_str());
    }

    /// Applies one abstract command. A `Step` command must not run the
    /// engine into a fatal condition; the host checks `can_step` first,
    /// as the surrounding interface does before enabling the control.
    pub fn apply_command(&mut self, cmd: Command)
        requires
            old(self).wf(),
            cmd is Step && old(self)@.interp.cur < old(self)@.interp.tokens.len() ==> step_enabled(
                old(self)@.interp,
            ) && old(self)@.interp.steps < usize::MAX,
        ensures
            final(self).wf(),
            final(self)@ == command_spec(old(self)@, &cmd),
    {
        match cmd {
            Command::Quit => {
                self.quit = true;
            },
            Command::FocusNext => {
                self.selected = self.selected.next_in_state(self.state);
            },
            Command::FocusPrev => {
                self.selected = self.selected.prev_in_state(self.state);
            },
            Command::ScrollSource(d) => {
                match d {
                    Direction::Forward => {
                        if self.scroll + 1 < self.num_lines {
                            self.scroll = self.scroll + 1;
                        }
                    },
                    Direction::Backward => {
                        if self.scroll > 0 {
                            self.scroll = self.scroll - 1;
                        }
                    },
                }
            },
            Command::SetSpeed(d) => {
                match d {
                    Direction::Forward => {
                        self.speed = self.speed.next();
                    },
                    Direction::Backward => {
                        self.speed = self.speed.prev();
                    },
                }
            },
            Command::EnterEditInput => {
                if self.state == State::Idle && self.selected == SelectItem::Input {
                    self.edit_state = EditState::EditInput;
                    self.reset_interpreter();
                }
            },
            Command::ExitEditInput(text) => {
                self.edit_state = EditState::Inactive;
                self.interpreter.set_input(text.clone());
                self.input_text = text;
            },
            Command::Reset => {
                self.state = State::Idle;
                self.selected = SelectItem::Start;
                self.reset_interpreter();
            },
            Command::Start => {
                if !self.interpreter.end() {
                    self.state = State::AutoPlay;
                    self.selected = SelectItem::Pause;
                }
            },
            Command::Pause => {
                if !self.interpreter.end() {
                    self.state = State::Play;
                    self.selected = SelectItem::Start;
                }
            },
            Command::Step => {
                if self.interpreter.end() {
                    self.state = State::Stop;
                    self.selected = SelectItem::Reset;
                } else {
                    self.interpreter.step();
                    self.state = State::Play;
                }
            },
            Command::SpaceToggleRun => {
                match self.state {
                    State::Idle | State::Play => {
                        self.state = State::AutoPlay;
                    },
                    State::AutoPlay => {
                        self.state = State::Play;
                    },
                    State::Stop => {
                    },
                }
            },
        }
    }

    /// The help line for the current focus, edit and run modes.
    pub fn help_msg(&self) -> (r: String)
        ensures
            r@ == help_msg_spec(self@),
    {
        let mut helps: Vec<&str> = Vec::new();
        helps.push("<Esc> quit app");
        helps.push("<Tab/BackTab> next/prev");

        match self.selected {
            SelectItem::Source => {
                helps.push("<j/k> scroll");
            },
            SelectItem::Input => {
                if self.edit_state == EditState::EditInput {
                    helps.clear();
                    helps.push("<Esc> exit editing");
                } else if self.state == State::Idle {
                    helps.push("<e> enter editing");
                }
            },
            SelectItem::Memory => {
            },
            SelectItem::Output => {
            },
            SelectItem::Reset => {
                match self.state {
                    State::Stop | State::Play | State::AutoPlay => {
                        helps.push("<Enter> reset");
                    },
                    _ => {
                    },
                }
            },
            SelectItem::Start => {
                match self.state {
                    State::Idle | State::Play => {
                        helps.push("<Enter> start");
                    },
                    _ => {
                    },
                }
            },
            SelectItem::Pause => {
                match self.state {
                    State::AutoPlay => {
                        helps.push("<Enter> pause");
                    },
                    _ => {
                    },
                }
            },
            SelectItem::Step => {
                match self.state {
                    State::Idle | State::Play | State::AutoPlay => {
                        helps.push("<Enter> step");
                    },
                    _ => {
                    },
                }
            },
            SelectItem::Speed => {
                helps.push("<j/k> select");
            },
        }

        match self.state {
            State::Idle | State::Play => {
                helps.push("<Space> start");
            },
            State::AutoPlay => {
                helps.push("<Space> pause");
            },
            State::Stop => {
            },
        }

        proof {
            assert(str_views(helps@) =~= help_entries(self@));
        }
        join_parts(&helps)
    }

    /// Handles one timer tick. While auto-running with instructions
    /// remaining, the host must have checked `can_step`.
    pub fn handle_tick(&mut self)
        requires
            old(self).wf(),
            old(self)@.state == State::AutoPlay && old(self)@.interp.cur < old(
                self,
            )@.interp.tokens.len() ==> step_enabled(old(self)@.interp) && old(self)@.interp.steps
                < usize::MAX,
        ensures
            final(self).wf(),
            final(self)@ == tick_spec(old(self)@),
    {
        if self.state == State::AutoPlay {
            if self.interpreter.end() {
                self.state = State::Stop;
                match self.selected {
                    SelectItem::Start | SelectItem::Pause | SelectItem::Step | SelectItem::Speed
                        => {
                        self.selected = SelectItem::Reset;
                    },
                    _ => {
                    },
                }
            } else {
                self.interpreter.step();
            }
        }
    }
}

} // verus!
