//! Survey and bug-report form model: widget configurations, per-widget answer
//! state, and the rules for when a form may be submitted.
//!
//! The engine proper treats these forms as external collaborators; they are
//! carried here because their rules — which widgets demand an answer, what
//! counts as answered, what a submission reports — are plain data logic.  The
//! embedder parses configuration files into [`FormConfig`], draws the widgets,
//! and serialises what [`WidgetForm::collect_answers`] reports.

use vstd::prelude::*;
use vstd::string::StrSliceExecFns;
use vstd::string::StringExecFns;
use crate::input;
use crate::overlay::SharedState;

verus! {

/// A one-to-ten rating widget's configuration.
pub struct OneToTenConfig {
    pub text: String,
    pub label_at_one: String,
    pub label_at_ten: String,
    pub required: bool,
}

/// A free-text widget's configuration.
pub struct EssayConfig {
    pub text: String,
    pub required: bool,
}

/// A single-choice widget's configuration.
pub struct RadioChoicesConfig {
    pub text: String,
    pub choices: Vec<String>,
    pub required: bool,
}

/// One widget of a form.
pub enum WidgetConfig {
    OneToTen(OneToTenConfig),
    Essay(EssayConfig),
    RadioChoices(RadioChoicesConfig),
}

impl WidgetConfig {
    /// Whether the widget demands an answer before the form may be submitted.
    pub open spec fn spec_required(&self) -> bool {
        match *self {
            WidgetConfig::OneToTen(ref c) => c.required,
            WidgetConfig::Essay(ref c) => c.required,
            WidgetConfig::RadioChoices(ref c) => c.required,
        }
    }

    /// The widget's question text.
    pub open spec fn spec_text(&self) -> Seq<char> {
        match *self {
            WidgetConfig::OneToTen(ref c) => c.text@,
            WidgetConfig::Essay(ref c) => c.text@,
            WidgetConfig::RadioChoices(ref c) => c.text@,
        }
    }

    /// Whether the widget demands an answer before the form may be submitted.
    pub fn is_required(&self) -> (r: bool)
        ensures
            r == self.spec_required(),
    {
        match self {
            WidgetConfig::OneToTen(c) => c.required,
            WidgetConfig::Essay(c) => c.required,
            WidgetConfig::RadioChoices(c) => c.required,
        }
    }

    /// The widget's question text.
    pub fn text(&self) -> (r: &str)
        ensures
            r@ == self.spec_text(),
    {
        match self {
            WidgetConfig::OneToTen(c) => c.text.as_str(),
            WidgetConfig::Essay(c) => c.text.as_str(),
            WidgetConfig::RadioChoices(c) => c.text.as_str(),
        }
    }
}

/// A whole form: its title and its widgets in display order.
pub struct FormConfig {
    pub title: String,
    pub widgets: Vec<WidgetConfig>,
}

/// The live answer state of one widget.
pub enum WidgetState {
    OneToTen(Option<u8>),
    Essay(String),
    RadioChoices(Option<String>),
}

/// A character the host's trimming treats as white space.
pub open spec fn spec_is_whitespace(c: char) -> bool {
    let u = c as u32;
    ||| (9 <= u && u <= 13)
    ||| u == 0x20
    ||| u == 0x85
    ||| u == 0xA0
    ||| u == 0x1680
    ||| (0x2000 <= u && u <= 0x200A)
    ||| u == 0x2028
    ||| u == 0x2029
    ||| u == 0x202F
    ||| u == 0x205F
    ||| u == 0x3000
}

/// A character the host's trimming treats as white space.
pub fn is_whitespace_char(c: char) -> (r: bool)
    ensures
        r == spec_is_whitespace(c),
{
    let u = c as u32;
    (9 <= u && u <= 13) || u == 0x20 || u == 0x85 || u == 0xA0 || u == 0x1680 || (0x2000 <= u && u
        <= 0x200A) || u == 0x2028 || u == 0x2029 || u == 0x202F || u == 0x205F || u == 0x3000
}

/// Whether the text holds any character beyond white space, which is what an
/// essay answer needs to count as given.
pub fn has_visible_text(s: &str) -> (r: bool)
    ensures
        r == exists|i: int| 0 <= i < s@.len() && !spec_is_whitespace(s@[i]),
{
    let n = s.unicode_len();
    let mut i: usize = 0;
    while i < n
        invariant
            n == s@.len(),
            i <= n,
            forall|j: int| 0 <= j < i ==> spec_is_whitespace(s@[j]),
        decreases n - i,
    {
        let c = s.get_char(i);
        if !is_whitespace_char(c) {
            return true;
        }
        i += 1;
    }
    false
}

impl WidgetState {
    /// Whether the widget counts as answered: a rating or choice is picked,
    /// or an essay holds something beyond white space.
    pub open spec fn spec_answered(&self) -> bool {
        match *self {
            WidgetState::OneToTen(v) => v is Some,
            WidgetState::Essay(ref s) => exists|i: int|
                0 <= i < s@.len() && !spec_is_whitespace(s@[i]),
            WidgetState::RadioChoices(ref c) => c is Some,
        }
    }

    /// Whether the widget counts as answered.
    pub fn is_answered(&self) -> (r: bool)
        ensures
            r == self.spec_answered(),
    {
        match self {
            WidgetState::OneToTen(v) => v.is_some(),
            WidgetState::Essay(s) => has_visible_text(s.as_str()),
            WidgetState::RadioChoices(c) => c.is_some(),
        }
    }
}

/// The decimal digit character for `d`.
pub open spec fn spec_digit_char(d: nat) -> char {
    if d == 0 {
        '0'
    } else if d == 1 {
        '1'
    } else if d == 2 {
        '2'
    } else if d == 3 {
        '3'
    } else if d == 4 {
        '4'
    } else if d == 5 {
        '5'
    } else if d == 6 {
        '6'
    } else if d == 7 {
        '7'
    } else if d == 8 {
        '8'
    } else {
        '9'
    }
}

/// The decimal digits of `n`, most significant first.
pub open spec fn spec_decimal_chars(n: nat) -> Seq<char>
    decreases n,
{
    if n < 10 {
        seq![spec_digit_char(n)]
    } else {
        spec_decimal_chars(n / 10).push(spec_digit_char(n % 10))
    }
}

/// Appends the character for one decimal digit.
fn append_digit(s: &mut String, d: u8)
    requires
        d < 10,
    ensures
        final(s)@ == old(s)@.push(spec_digit_char(d as nat)),
{
    if d == 0 {
        proof {
            reveal_strlit("0");
        }
        s.append("0");
    } else if d == 1 {
        proof {
            reveal_strlit("1");
        }
        s.append("1");
    } else if d == 2 {
        proof {
            reveal_strlit("2");
        }
        s.append("2");
    } else if d == 3 {
        proof {
            reveal_strlit("3");
        }
        s.append("3");
    } else if d == 4 {
        proof {
            reveal_strlit("4");
        }
        s.append("4");
    } else if d == 5 {
        proof {
            reveal_strlit("5");
        }
        s.append("5");
    } else if d == 6 {
        proof {
            reveal_strlit("6");
        }
        s.append("6");
    } else if d == 7 {
        proof {
            reveal_strlit("7");
        }
        s.append("7");
    } else if d == 8 {
        proof {
            reveal_strlit("8");
        }
        s.append("8");
    } else {
        proof {
            reveal_strlit("9");
        }
        s.append("9");
    }
    proof {
        assert(s@ =~= old(s)@.push(spec_digit_char(d as nat)));
    }
}

/// Renders a byte-sized count in decimal.
pub fn u8_decimal(n: u8) -> (r: String)
    ensures
        r@ == spec_decimal_chars(n as nat),
{
    let mut s = String::new();
    if n >= 100 {
        append_digit(&mut s, n / 100);
    }
    if n >= 10 {
        append_digit(&mut s, (n / 10) % 10);
    }
    append_digit(&mut s, n % 10);
    proof {
        if n < 10 {
            assert(s@ =~= spec_decimal_chars(n as nat));
        } else if n < 100 {
            assert(spec_decimal_chars((n / 10) as nat) =~= seq![
                spec_digit_char((n / 10) as nat),
            ]);
            assert(s@ =~= spec_decimal_chars(n as nat));
        } else {
            vstd::arithmetic::div_mod::lemma_div_denominator(n as int, 10, 10);
            assert((n as nat / 10) / 10 == n as nat / 100);
            assert(spec_decimal_chars((n / 100) as nat) =~= seq![
                spec_digit_char((n / 100) as nat),
            ]);
            assert(spec_decimal_chars((n / 10) as nat) =~= spec_decimal_chars(
                (n / 100) as nat,
            ).push(spec_digit_char(((n / 10) % 10) as nat)));
            assert(s@ =~= spec_decimal_chars(n as nat));
        }
    }
    s
}

impl WidgetState {
    /// The answer rendered as text: a picked rating in decimal, the chosen
    /// option, the essay itself; an unanswered rating or choice is empty.
    pub open spec fn spec_answer_text(&self) -> Seq<char> {
        match *self {
            WidgetState::OneToTen(v) => if v is Some {
                spec_decimal_chars(v->0 as nat)
            } else {
                Seq::empty()
            },
            WidgetState::Essay(s) => s@,
            WidgetState::RadioChoices(c) => if c is Some {
                c->0@
            } else {
                Seq::empty()
            },
        }
    }

    /// The answer rendered as text.
    pub fn answer_text(&self) -> (r: String)
        ensures
            r@ == self.spec_answer_text(),
    {
        match self {
            WidgetState::OneToTen(v) => match v {
                Some(x) => u8_decimal(*x),
                None => String::new(),
            },
            WidgetState::Essay(s) => s.clone(),
            WidgetState::RadioChoices(c) => match c {
                Some(x) => x.clone(),
                None => String::new(),
            },
        }
    }
}

/// The answer state a widget starts with: nothing picked, nothing written.
pub open spec fn spec_initial_state_for(w: WidgetConfig, s: WidgetState) -> bool {
    match (w, s) {
        (WidgetConfig::OneToTen(_), WidgetState::OneToTen(v)) => v is None,
        (WidgetConfig::Essay(_), WidgetState::Essay(t)) => t@.len() == 0,
        (WidgetConfig::RadioChoices(_), WidgetState::RadioChoices(c)) => c is None,
        _ => false,
    }
}

/// What the user did with a drawn form.
#[derive(Clone, Copy, Debug, PartialEq, Eq, Structural)]
pub enum FormAction {
    /// The submit button was clicked with every required widget answered.
    Submitted,
    /// The form was dismissed.
    Closed,
    /// Nothing happened this frame.
    Idle,
}

/// A form under way: its configuration, the answers so far, and where the
/// configuration came from (used as the submission's identifier).
pub struct WidgetForm {
    pub config: FormConfig,
    pub state: Vec<WidgetState>,
    pub opened: bool,
    pub config_path: String,
}

impl WidgetForm {
    /// Every widget has its answer slot.
    pub open spec fn wf(&self) -> bool {
        self.state@.len() == self.config.widgets@.len()
    }

    /// The initial answer state for a widget list.
    pub fn create_initial_state(widgets: &Vec<WidgetConfig>) -> (r: Vec<WidgetState>)
        ensures
            r@.len() == widgets@.len(),
            forall|i: int|
                0 <= i < widgets@.len() ==> spec_initial_state_for(#[trigger] widgets@[i], r@[i]),
    {
        let n = widgets.len();
        let mut state: Vec<WidgetState> = Vec::new();
        let mut i: usize = 0;
        while i < n
            invariant
                n == widgets@.len(),
                i <= n,
                state@.len() == i,
                forall|k: int|
                    0 <= k < i ==> spec_initial_state_for(#[trigger] widgets@[k], state@[k]),
            decreases n - i,
        {
            match &widgets[i] {
                WidgetConfig::OneToTen(_) => state.push(WidgetState::OneToTen(None)),
                WidgetConfig::Essay(_) => state.push(WidgetState::Essay(String::new())),
                WidgetConfig::RadioChoices(_) => state.push(WidgetState::RadioChoices(None)),
            }
            i += 1;
        }
        state
    }

    /// A fresh form for a parsed configuration: every widget unanswered, the
    /// form not yet opened.
    pub fn new(config: FormConfig, config_path: String) -> (form: WidgetForm)
        ensures
            form.config == config,
            form.config_path == config_path,
            !form.opened,
            form.wf(),
            forall|i: int|
                0 <= i < config.widgets@.len() ==> spec_initial_state_for(
                    #[trigger] config.widgets@[i],
                    form.state@[i],
                ),
    {
        let state = Self::create_initial_state(&config.widgets);
        WidgetForm { config, state, opened: false, config_path }
    }

    /// Whether every widget that demands an answer has one, which is what
    /// enables submission.
    pub open spec fn spec_all_required_filled(&self) -> bool {
        forall|i: int|
            0 <= i < self.config.widgets@.len() ==> ((#[trigger] self.config.widgets@[i]).spec_required()
                ==> self.state@[i].spec_answered())
    }

    /// Whether every widget that demands an answer has one.
    pub fn are_all_required_filled(&self) -> (r: bool)
        requires
            self.wf(),
        ensures
            r == self.spec_all_required_filled(),
    {
        let n = self.config.widgets.len();
        let mut i: usize = 0;
        while i < n
            invariant
                self.wf(),
                n == self.config.widgets@.len(),
                i <= n,
                forall|k: int|
                    0 <= k < i ==> ((#[trigger] self.config.widgets@[k]).spec_required()
                        ==> self.state@[k].spec_answered()),
            decreases n - i,
        {
            if self.config.widgets[i].is_required() && !self.state[i].is_answered() {
                return false;
            }
            i += 1;
        }
        true
    }

    /// Puts every widget back to its initial answer state; the configuration
    /// and the opened flag stay as they are.
    pub fn reset_state(&mut self)
        ensures
            final(self).config == old(self).config,
            final(self).opened == old(self).opened,
            final(self).config_path == old(self).config_path,
            final(self).wf(),
            forall|i: int|
                0 <= i < old(self).config.widgets@.len() ==> spec_initial_state_for(
                    #[trigger] old(self).config.widgets@[i],
                    final(self).state@[i],
                ),
    {
        self.state = Self::create_initial_state(&self.config.widgets);
    }

    /// The question/answer pairs of a submission, in widget order.  The
    /// embedder adds the submission metadata and serialises the result.
    pub fn collect_answers(&self) -> (r: Vec<(String, String)>)
        requires
            self.wf(),
        ensures
            r@.len() == self.config.widgets@.len(),
            forall|i: int|
                0 <= i < r@.len() ==> (#[trigger] r@[i]).0@ == self.config.widgets@[i].spec_text()
                    && r@[i].1@ == self.state@[i].spec_answer_text(),
    {
        let n = self.config.widgets.len();
        let mut out: Vec<(String, String)> = Vec::new();
        let mut i: usize = 0;
        while i < n
            invariant
                self.wf(),
                n == self.config.widgets@.len(),
                i <= n,
                out@.len() == i,
                forall|k: int|
                    0 <= k < i ==> (#[trigger] out@[k]).0@ == self.config.widgets@[k].spec_text()
                        && out@[k].1@ == self.state@[k].spec_answer_text(),
            decreases n - i,
        {
            let question = String::from_str(self.config.widgets[i].text());
            let answer = self.state[i].answer_text();
            out.push((question, answer));
            i += 1;
        }
        out
    }
}

/// An ASCII decimal digit.
pub open spec fn spec_is_ascii_digit(c: char) -> bool {
    48 <= c as u32 <= 57
}

/// Whether the text consists of ASCII digits alone (an empty text does).
/// The survey-control variable holds either such a number or a configuration
/// path.
pub fn all_ascii_digits(s: &str) -> (r: bool)
    ensures
        r == forall|i: int| 0 <= i < s@.len() ==> spec_is_ascii_digit(#[trigger] s@[i]),
{
    let n = s.unicode_len();
    let mut i: usize = 0;
    while i < n
        invariant
            n == s@.len(),
            i <= n,
            forall|j: int| 0 <= j < i ==> spec_is_ascii_digit(#[trigger] s@[j]),
        decreases n - i,
    {
        let c = s.get_char(i);
        let u = c as u32;
        if !(48 <= u && u <= 57) {
            return false;
        }
        i += 1;
    }
    true
}

/// What the embedder read from the survey-control console variable.
pub struct CvarSnapshot {
    /// The variable's string value.
    pub text: String,
    /// The variable's integer value.
    pub int_value: i32,
}

/// Whether the survey window draws this frame, and whether the control
/// variable first needs to be created.
#[derive(Clone, Copy, Debug, PartialEq, Eq, Structural)]
pub struct SurveyRenderDecision {
    /// Draw the survey.
    pub render: bool,
    /// The control variable is missing; the embedder initialises it to zero.
    pub initialize_cvar: bool,
}

/// The survey window: a modal form opened through a console variable.
pub struct SurveyWin {
    pub form: WidgetForm,
    pub is_opened: bool,
}

impl SurveyWin {
    /// A fresh survey window around a loaded form.
    pub fn new(form: WidgetForm) -> (w: SurveyWin)
        requires
            form.wf(),
        ensures
            w.form == form,
            !w.is_opened,
            w.form.wf(),
    {
        SurveyWin { form, is_opened: false }
    }

    /// The window's title.
    pub fn name(&self) -> (r: &'static str)
        ensures
            r@ == "Survey"@,
    {
        "Survey"
    }

    /// The survey is driven by its console variable, never toggled directly.
    pub fn is_open(&self) -> (r: bool)
        ensures
            r,
    {
        true
    }

    /// The survey draws when its control variable holds something besides a
    /// plain number (a configuration path), or a nonzero number.  A missing
    /// variable means the embedder must create it first; nothing draws then.
    pub fn is_should_render(&self, open_survey: Option<&CvarSnapshot>) -> (r: SurveyRenderDecision)
        ensures
            match open_survey {
                Some(v) => r == (SurveyRenderDecision {
                    render: !(forall|i: int|
                        0 <= i < v.text@.len() ==> spec_is_ascii_digit(#[trigger] v.text@[i]))
                        || v.int_value != 0,
                    initialize_cvar: false,
                }),
                None => r == (SurveyRenderDecision { render: false, initialize_cvar: true }),
            },
    {
        match open_survey {
            Some(v) => SurveyRenderDecision {
                render: !all_ascii_digits(v.text.as_str()) || v.int_value != 0,
                initialize_cvar: false,
            },
            None => SurveyRenderDecision { render: false, initialize_cvar: true },
        }
    }

    /// Raw input: while the survey is open it consumes keyboard messages so
    /// typing stays in the form; everything else passes to the host.
    pub fn on_raw_input(&mut self, umsg: u32, wparam: u16) -> (pass: bool)
        ensures
            *final(self) == *old(self),
            pass == (!old(self).is_opened || !input::spec_is_keyboard_message(umsg)),
    {
        let _ = wparam;
        if !self.is_opened {
            return true;
        }
        !input::is_keyboard_message(umsg)
    }
}

/// The bug-report window: a corner button while the host is paused, opening a
/// modal report form.
pub struct BugReportWin {
    pub form: WidgetForm,
    pub is_modal_open: bool,
}

impl BugReportWin {
    /// A fresh bug-report window around a loaded form.
    pub fn new(form: WidgetForm) -> (w: BugReportWin)
        requires
            form.wf(),
        ensures
            w.form == form,
            !w.is_modal_open,
            w.form.wf(),
    {
        BugReportWin { form, is_modal_open: false }
    }

    /// The window's title.
    pub fn name(&self) -> (r: &'static str)
        ensures
            r@ == "Bug Report"@,
    {
        "Bug Report"
    }

    /// The bug-report button is always available while rendered.
    pub fn is_open(&self) -> (r: bool)
        ensures
            r,
    {
        true
    }

    /// The window renders only while the host is paused in game and no survey
    /// is open.
    pub fn is_should_render(&self, paused: bool, in_game: bool, shared_state: &SharedState) -> (r:
        bool)
        ensures
            r == (paused && in_game && !shared_state.surver_is_opened),
    {
        paused && in_game && !shared_state.surver_is_opened
    }

    /// Closes the modal form: releases overlay focus and resets every answer.
    pub fn close_window(&mut self, shared_state: &mut SharedState)
        ensures
            !final(self).is_modal_open,
            final(self).form.config == old(self).form.config,
            final(self).form.opened == old(self).form.opened,
            final(self).form.config_path == old(self).form.config_path,
            final(self).form.wf(),
            forall|i: int|
                0 <= i < old(self).form.config.widgets@.len() ==> spec_initial_state_for(
                    #[trigger] old(self).form.config.widgets@[i],
                    final(self).form.state@[i],
                ),
            *final(shared_state) == (SharedState {
                is_overlay_focused: false,
                ..*old(shared_state)
            }),
    {
        self.is_modal_open = false;
        shared_state.is_overlay_focused = false;
        self.form.reset_state();
    }

    /// Raw input: while the modal form is open it consumes keyboard messages;
    /// everything else passes to the host.
    pub fn on_raw_input(&mut self, umsg: u32, wparam: u16) -> (pass: bool)
        ensures
            *final(self) == *old(self),
            pass == (!old(self).is_modal_open || !input::spec_is_keyboard_message(umsg)),
    {
        let _ = wparam;
        if !self.is_modal_open {
            return true;
        }
        !input::is_keyboard_message(umsg)
    }
}

} // verus!
