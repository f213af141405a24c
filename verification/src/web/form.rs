//! The form interaction engine: open the editor, set a dropdown, save.

use vstd::prelude::*;
use vstd::string::*;
use crate::text::{
    contains, contains_text, is_blank_text, lowercase, to_chars, to_lowercase, trim, trimmed,
};
use crate::web::browser::{
    Command, CommandView, ElementRef, Key, Reply, ReplyView, Step, StepView,
};
use crate::web::entry::{
    lemma_sends_text_in_order, remaining, EntryModel, EntryOutcome, EntryPhase, FieldEntry,
};

verus! {

/// How long a control is given to appear under its selector, in milliseconds.
pub const CONTROL_TIMEOUT_MS: u64 = 5000;

/// How long the page is given to settle after a control was clicked, in
/// milliseconds.
pub const CONTROL_SETTLE_MS: u64 = 2000;

/// How long each selector of a dropdown is given, in milliseconds.
pub const DROPDOWN_TIMEOUT_MS: u64 = 3000;

/// The wait between clearing a dropdown and typing into it, in milliseconds.
pub const DROPDOWN_CLEAR_SETTLE_MS: u64 = 200;

/// The wait between typing into a dropdown and confirming, in milliseconds.
pub const DROPDOWN_TYPED_SETTLE_MS: u64 = 400;

/// The wait after confirming a dropdown, in milliseconds.
pub const DROPDOWN_DONE_SETTLE_MS: u64 = 500;

/// Why a form interaction failed.
#[derive(Debug, Clone, Copy, PartialEq, Eq, Structural)]
pub enum FormError {
    /// The value to set is empty.
    EmptyValue,
    /// The click has no script.
    ScriptEncoding,
    /// The browser reported an error.
    BrowserCall,
    /// No candidate for the control was found.
    ControlNotFound,
    /// No input was found for the keywords of the dropdown.
    DropdownNotFound,
    /// The machine was asked to go on after its end.
    AlreadyFinished,
}

/// A control that is clicked by its text or, failing that, by a selector.
#[derive(Debug, Clone, Copy, PartialEq, Eq, Structural)]
pub enum ControlKind {
    /// The control that opens the risk assessment for editing.
    OpenEditor,
    /// The control that saves the risk assessment.
    Save,
}

/// The texts by which a control is known, in order of preference.
pub open spec fn control_texts(kind: ControlKind) -> Seq<Seq<char>> {
    match kind {
        ControlKind::OpenEditor => seq!["Edit form"@, "Edit Form"@, "Edit risk assessment"@],
        ControlKind::Save => seq!["Save"@, "Update"@, "Done"@, "Close"@],
    }
}

/// The selector under which a control is looked for when no text matched.
pub open spec fn control_selector(kind: ControlKind) -> Seq<char> {
    match kind {
        ControlKind::OpenEditor => "._19itidpf"@,
        ControlKind::Save => "button.css.-vl1vwyf"@,
    }
}

/// The views of a list of strings.
pub open spec fn texts_of(v: Seq<String>) -> Seq<Seq<char>> {
    Seq::new(v.len(), |i: int| v[i]@)
}

/// The JSON text of a list of strings, as `serde_json::to_string` writes it.
pub uninterp spec fn json_of_strings(texts: Seq<Seq<char>>) -> Seq<char>;

/// The script that clicks the first button whose text is one of the texts in
/// the JSON array `json`, and returns that text, or the empty string when
/// there is none.
pub open spec fn click_script_text(json: Seq<char>) -> Seq<char> {
    "(function() { const targets = "@ + json
        + ".map(t => t.toLowerCase().trim()); const elements = Array.from("@
        + "document.querySelectorAll('button, [role=\"button\"], a[role=\"button\"]')); "@
        + "for (const target of targets) { const match = elements.find(el => "@
        + "(el.innerText || el.textContent || '').trim().toLowerCase() === target); "@
        + "if (match) { match.click(); return target; } } return ''; })()"@
}

/// `s` with a backslash before each double quote.
pub open spec fn escape_quotes(s: Seq<char>) -> Seq<char>
    decreases s.len(),
{
    if s.len() == 0 {
        Seq::empty()
    } else if s.last() == '"' {
        escape_quotes(s.drop_last()).push('\\').push('"')
    } else {
        escape_quotes(s.drop_last()).push(s.last())
    }
}

/// The selector that finds an input by a keyword in one of its attributes,
/// case ignored: the accessible label first, then the test id.
pub open spec fn attribute_selector(keyword: Seq<char>, variant: int) -> Seq<char> {
    if variant == 0 {
        "input[aria-label*=\""@ + escape_quotes(keyword) + "\" i]"@
    } else {
        "input[data-testid*=\""@ + escape_quotes(keyword) + "\" i]"@
    }
}

/// Whether a label names one of the keywords, case ignored.
pub open spec fn label_matches(label: Seq<char>, keywords: Seq<Seq<char>>) -> bool {
    exists|k: int|
        0 <= k < keywords.len() && contains_text(
            lowercase(label),
            lowercase(#[trigger] keywords[k]),
        )
}

/// `serde_json::Error`, the error of the JSON encoder. Nothing is known of
/// its content; it is only passed on.
#[verifier::external_type_specification]
#[verifier::external_body]
pub struct ExJsonError(serde_json::Error);

/// Calls `serde_json::to_string` on a list of strings. The contract claims
/// that the call succeeds and names the text it returns. The encoder writes
/// into a byte vector, and of its two ways to fail, a value that refuses to
/// be written and a map whose keys are not strings, a list of strings has
/// neither.
#[verifier::external_body]
fn encode_strings(texts: &Vec<String>) -> (r: Result<String, serde_json::Error>)
    ensures
        match r {
            Ok(s) => s@ == json_of_strings(texts_of(texts@)),
            Err(_) => false,
        },
{
    serde_json::to_string(texts)
}

/// Calls `String::push`: the character is appended.
#[verifier::external_body]
fn push_char(s: &mut String, c: char)
    ensures
        final(s)@ == old(s)@.push(c),
{
    s.push(c)
}

/// The texts by which a control is known.
pub fn control_text_list(kind: ControlKind) -> (r: Vec<String>)
    ensures
        texts_of(r@) == control_texts(kind),
{
    let mut r: Vec<String> = Vec::new();
    match kind {
        ControlKind::OpenEditor => {
            r.push("Edit form".to_owned());
            r.push("Edit Form".to_owned());
            r.push("Edit risk assessment".to_owned());
        },
        ControlKind::Save => {
            r.push("Save".to_owned());
            r.push("Update".to_owned());
            r.push("Done".to_owned());
            r.push("Close".to_owned());
        },
    }
    assert(texts_of(r@) =~= control_texts(kind));
    r
}

/// The selector of a control.
pub fn control_selector_for(kind: ControlKind) -> (r: &'static str)
    ensures
        r@ == control_selector(kind),
{
    match kind {
        ControlKind::OpenEditor => "._19itidpf",
        ControlKind::Save => "button.css.-vl1vwyf",
    }
}

/// The script that clicks the first button whose text is in the JSON array
/// `json`.
pub fn click_script_from(json: &str) -> (r: String)
    ensures
        r@ == click_script_text(json@),
{
    let mut r = "(function() { const targets = ".to_owned();
    r.append(json);
    r.append(".map(t => t.toLowerCase().trim()); const elements = Array.from(");
    r.append("document.querySelectorAll('button, [role=\"button\"], a[role=\"button\"]')); ");
    r.append("for (const target of targets) { const match = elements.find(el => ");
    r.append("(el.innerText || el.textContent || '').trim().toLowerCase() === target); ");
    r.append("if (match) { match.click(); return target; } } return ''; })()");
    r
}

/// The script that clicks the first button whose text is one of `texts`. A
/// list of strings can always be encoded, so the result is never an error.
pub fn click_script(texts: &Vec<String>) -> (r: Result<String, FormError>)
    ensures
        match r {
            Ok(s) => s@ == click_script_text(json_of_strings(texts_of(texts@))),
            Err(_) => false,
        },
{
    match encode_strings(texts) {
        Ok(json) => Ok(click_script_from(json.as_str())),
        Err(_) => Err(FormError::ScriptEncoding),
    }
}

/// `s` with a backslash before each double quote.
pub fn escape_css(s: &str) -> (r: String)
    ensures
        r@ == escape_quotes(s@),
{
    let chars = to_chars(s);
    let mut r = String::new();
    let mut i: usize = 0;
    while i < chars.len()
        invariant
            i <= chars.len(),
            chars@ == s@,
            r@ == escape_quotes(s@.take(i as int)),
        decreases chars.len() - i,
    {
        let c = chars[i];
        proof {
            let next = s@.take(i as int + 1);
            assert(next.drop_last() =~= s@.take(i as int));
            assert(next.last() == c);
        }
        if c == '"' {
            push_char(&mut r, '\\');
            push_char(&mut r, '"');
        } else {
            push_char(&mut r, c);
        }
        i += 1;
    }
    assert(s@.take(i as int) =~= s@);
    r
}

/// The selector that finds an input by `keyword` in its accessible label
/// (`variant` 0) or in its test id (any other `variant`).
pub fn attribute_selector_for(keyword: &str, variant: usize) -> (r: String)
    ensures
        r@ == attribute_selector(keyword@, variant as int),
{
    let mut r = if variant == 0 {
        "input[aria-label*=\"".to_owned()
    } else {
        "input[data-testid*=\"".to_owned()
    };
    let escaped = escape_css(keyword);
    r.append(escaped.as_str());
    r.append("\" i]");
    r
}

/// Whether `label` names one of `keywords`, case ignored.
pub fn label_names_keyword(label: &str, keywords: &Vec<String>) -> (r: bool)
    ensures
        r == label_matches(label@, texts_of(keywords@)),
{
    let lower = to_lowercase(label);
    let mut k: usize = 0;
    while k < keywords.len()
        invariant
            k <= keywords.len(),
            lower@ == lowercase(label@),
            forall|j: int|
                0 <= j < k ==> !contains_text(
                    lowercase(label@),
                    lowercase(#[trigger] texts_of(keywords@)[j]),
                ),
        decreases keywords.len() - k,
    {
        let keyword = to_lowercase(keywords[k].as_str());
        if contains(lower.as_str(), keyword.as_str()) {
            assert(texts_of(keywords@)[k as int] == keywords@[k as int]@);
            return true;
        }
        assert(texts_of(keywords@)[k as int] == keywords@[k as int]@);
        k += 1;
    }
    false
}

/// What a control click is waiting for.
#[derive(Debug, Clone, Copy, PartialEq, Eq, Structural)]
pub enum ClickPhase {
    Start,
    AwaitScript,
    AwaitLocate,
    AwaitClick,
    AwaitNavigation,
    Settling,
    Finished,
}

/// The mathematical content of a control click.
pub struct ClickModel {
    pub kind: ControlKind,
    /// The script that clicks by text, if the click has one.
    pub script: Option<Seq<char>>,
    pub phase: ClickPhase,
}

impl ClickModel {
    /// The click on the control `kind`, before its first answer, with the
    /// script that clicks by the texts of that control.
    pub open spec fn initial(kind: ControlKind) -> ClickModel {
        ClickModel {
            kind,
            script: Some(click_script_text(json_of_strings(control_texts(kind)))),
            phase: ClickPhase::Start,
        }
    }

    /// The answer that ends the machine with `outcome`.
    pub open spec fn finish(self, outcome: Result<(), FormError>) -> (
        ClickModel,
        StepView<Result<(), FormError>>,
    ) {
        (ClickModel { phase: ClickPhase::Finished, ..self }, StepView::Finished(outcome))
    }

    /// The answer that asks for `command` and waits in `phase`.
    pub open spec fn run(self, command: CommandView, phase: ClickPhase) -> (
        ClickModel,
        StepView<Result<(), FormError>>,
    ) {
        (ClickModel { phase, ..self }, StepView::Run(command))
    }

    /// The answer to a reply. The control is clicked by its text first; where
    /// the script found no such text, the selector is tried. An error of the
    /// browser ends the click; so does a selector that finds nothing.
    pub open spec fn next(self, reply: ReplyView) -> (ClickModel, StepView<Result<(), FormError>>) {
        let ok = reply is Done;
        match self.phase {
            ClickPhase::Start => match self.script {
                Some(script) => self.run(CommandView::Evaluate { script }, ClickPhase::AwaitScript),
                None => self.finish(Err(FormError::ScriptEncoding)),
            },
            ClickPhase::AwaitScript => match reply {
                ReplyView::Value(value) => if value is Some && value->0.len() > 0 {
                    self.run(CommandView::Sleep { millis: CONTROL_SETTLE_MS }, ClickPhase::Settling)
                } else {
                    self.run(
                        CommandView::WaitForElement {
                            selector: control_selector(self.kind),
                            timeout_ms: CONTROL_TIMEOUT_MS,
                        },
                        ClickPhase::AwaitLocate,
                    )
                },
                _ => self.finish(Err(FormError::BrowserCall)),
            },
            ClickPhase::AwaitLocate => if ok {
                self.run(CommandView::Click { element: ElementRef::Located }, ClickPhase::AwaitClick)
            } else {
                self.finish(Err(FormError::ControlNotFound))
            },
            ClickPhase::AwaitClick => if ok {
                self.run(CommandView::WaitUntilNavigated, ClickPhase::AwaitNavigation)
            } else {
                self.finish(Err(FormError::BrowserCall))
            },
            ClickPhase::AwaitNavigation => if ok {
                self.run(CommandView::Sleep { millis: CONTROL_SETTLE_MS }, ClickPhase::Settling)
            } else {
                self.finish(Err(FormError::BrowserCall))
            },
            ClickPhase::Settling => self.finish(Ok(())),
            ClickPhase::Finished => self.finish(Err(FormError::AlreadyFinished)),
        }
    }
}

/// The state machine that clicks one control of the form.
pub struct ClickControl {
    kind: ControlKind,
    script: Option<String>,
    phase: ClickPhase,
}

impl View for ClickControl {
    type V = ClickModel;

    closed spec fn view(&self) -> ClickModel {
        ClickModel {
            kind: self.kind,
            script: match self.script {
                Some(s) => Some(s@),
                None => None,
            },
            phase: self.phase,
        }
    }
}

impl ClickControl {
    /// A click on the control `kind` that is handed its script, or `None`
    /// for a click that has none and fails at its start.
    pub fn with_script(kind: ControlKind, script: Option<String>) -> (r: Self)
        ensures
            r@ == (ClickModel {
                kind,
                script: match script {
                    Some(s) => Some(s@),
                    None => None,
                },
                phase: ClickPhase::Start,
            }),
    {
        ClickControl { kind, script, phase: ClickPhase::Start }
    }

    /// Makes the click ready to start again.
    pub fn reset(&mut self)
        ensures
            final(self)@ == (ClickModel { phase: ClickPhase::Start, ..old(self)@ }),
    {
        self.phase = ClickPhase::Start;
    }

    /// A click on the control `kind`, with the script that clicks by the
    /// texts of that control.
    pub fn new(kind: ControlKind) -> (r: Self)
        ensures
            r@ == ClickModel::initial(kind),
    {
        let texts = control_text_list(kind);
        let script = match click_script(&texts) {
            Ok(s) => Some(s),
            Err(_) => None,
        };
        ClickControl::with_script(kind, script)
    }

    fn finish(&mut self, outcome: Result<(), FormError>) -> (step: Step<Result<(), FormError>>)
        ensures
            (final(self)@, step@) == old(self)@.finish(outcome),
    {
        self.phase = ClickPhase::Finished;
        Step::Finished(outcome)
    }

    fn run(&mut self, command: Command, phase: ClickPhase) -> (step: Step<Result<(), FormError>>)
        ensures
            (final(self)@, step@) == old(self)@.run(command@, phase),
    {
        self.phase = phase;
        Step::Run(command)
    }

    /// The next answer, given the reply to the last command. The first call
    /// starts the click, whatever the reply.
    pub fn advance(&mut self, reply: &Reply) -> (step: Step<Result<(), FormError>>)
        ensures
            (final(self)@, step@) == old(self)@.next(reply@),
    {
        let ok = reply.is_done();
        match self.phase {
            ClickPhase::Start => {
                let script = match &self.script {
                    Some(s) => Some(s.clone()),
                    None => None,
                };
                match script {
                    Some(script) => self.run(Command::Evaluate { script }, ClickPhase::AwaitScript),
                    None => self.finish(Err(FormError::ScriptEncoding)),
                }
            },
            ClickPhase::AwaitScript => match reply {
                Reply::Value(value) => {
                    let clicked = match value {
                        Some(v) => !v.as_str().is_empty(),
                        None => false,
                    };
                    if clicked {
                        self.run(Command::Sleep { millis: CONTROL_SETTLE_MS }, ClickPhase::Settling)
                    } else {
                        self.run(
                            Command::WaitForElement {
                                selector: control_selector_for(self.kind).to_owned(),
                                timeout_ms: CONTROL_TIMEOUT_MS,
                            },
                            ClickPhase::AwaitLocate,
                        )
                    }
                },
                _ => self.finish(Err(FormError::BrowserCall)),
            },
            ClickPhase::AwaitLocate => if ok {
                self.run(Command::Click { element: ElementRef::Located }, ClickPhase::AwaitClick)
            } else {
                self.finish(Err(FormError::ControlNotFound))
            },
            ClickPhase::AwaitClick => if ok {
                self.run(Command::WaitUntilNavigated, ClickPhase::AwaitNavigation)
            } else {
                self.finish(Err(FormError::BrowserCall))
            },
            ClickPhase::AwaitNavigation => if ok {
                self.run(Command::Sleep { millis: CONTROL_SETTLE_MS }, ClickPhase::Settling)
            } else {
                self.finish(Err(FormError::BrowserCall))
            },
            ClickPhase::Settling => self.finish(Ok(())),
            ClickPhase::Finished => self.finish(Err(FormError::AlreadyFinished)),
        }
    }
}

/// What a dropdown is waiting for.
#[derive(Debug, Clone, Copy, PartialEq, Eq, Structural)]
pub enum DropdownPhase {
    Start,
    AwaitSelector { keyword: usize, variant: usize },
    AwaitCandidates,
    AwaitLabel { index: usize, count: usize },
    Entering,
    SettlingTyped,
    AwaitEnter,
    SettlingDone,
    Finished,
}

/// The mathematical content of a dropdown.
pub struct DropdownModel {
    pub keywords: Seq<Seq<char>>,
    /// The value to set, without surrounding whitespace.
    pub value: Seq<char>,
    pub phase: DropdownPhase,
    pub entry: EntryModel,
}

impl DropdownModel {
    /// The entry that types the value into `element`.
    pub open spec fn entry_on(self, element: ElementRef) -> EntryModel {
        EntryModel {
            element,
            text: self.value,
            settle_ms: DROPDOWN_CLEAR_SETTLE_MS,
            phase: EntryPhase::Start,
        }
    }

    /// The dropdown for `keywords` and the value `value`, before its first
    /// answer.
    pub open spec fn initial(keywords: Seq<Seq<char>>, value: Seq<char>) -> DropdownModel {
        DropdownModel {
            keywords,
            value,
            phase: DropdownPhase::Start,
            entry: EntryModel {
                element: ElementRef::Located,
                text: value,
                settle_ms: DROPDOWN_CLEAR_SETTLE_MS,
                phase: EntryPhase::Start,
            },
        }
    }

    /// The answer that ends the machine with `outcome`.
    pub open spec fn finish(self, outcome: Result<(), FormError>) -> (
        DropdownModel,
        StepView<Result<(), FormError>>,
    ) {
        (DropdownModel { phase: DropdownPhase::Finished, ..self }, StepView::Finished(outcome))
    }

    /// The answer that asks for `command` and waits in `phase`.
    pub open spec fn run(self, command: CommandView, phase: DropdownPhase) -> (
        DropdownModel,
        StepView<Result<(), FormError>>,
    ) {
        (DropdownModel { phase, ..self }, StepView::Run(command))
    }

    /// Try the selector `variant` of keyword `keyword`; with no keyword left,
    /// list the combobox inputs.
    pub open spec fn probe(self, keyword: int, variant: int) -> (
        DropdownModel,
        StepView<Result<(), FormError>>,
    ) {
        if 0 <= keyword < self.keywords.len() {
            self.run(
                CommandView::WaitForElement {
                    selector: attribute_selector(self.keywords[keyword], variant),
                    timeout_ms: DROPDOWN_TIMEOUT_MS,
                },
                DropdownPhase::AwaitSelector {
                    keyword: keyword as usize,
                    variant: variant as usize,
                },
            )
        } else {
            self.run(
                CommandView::FindElements { selector: "input[role=\"combobox\"]"@ },
                DropdownPhase::AwaitCandidates,
            )
        }
    }

    /// Read the label of input `index` of `count`; with none left, the
    /// dropdown was not found.
    pub open spec fn inspect(self, index: int, count: usize) -> (
        DropdownModel,
        StepView<Result<(), FormError>>,
    ) {
        if 0 <= index < count {
            self.run(
                CommandView::Attribute {
                    element: ElementRef::Listed(index as usize),
                    name: "aria-label"@,
                },
                DropdownPhase::AwaitLabel { index: index as usize, count },
            )
        } else {
            self.finish(Err(FormError::DropdownNotFound))
        }
    }

    /// What follows an answer of the entry: its command, or once the value
    /// is typed, a short wait.
    pub open spec fn entered(self, r: (EntryModel, StepView<EntryOutcome>)) -> (
        DropdownModel,
        StepView<Result<(), FormError>>,
    ) {
        let m = DropdownModel { entry: r.0, ..self };
        match r.1 {
            StepView::Run(command) => m.run(command, DropdownPhase::Entering),
            StepView::Finished(EntryOutcome::Typed) => m.run(
                CommandView::Sleep { millis: DROPDOWN_TYPED_SETTLE_MS },
                DropdownPhase::SettlingTyped,
            ),
            StepView::Finished(EntryOutcome::Failed) => m.finish(Err(FormError::BrowserCall)),
        }
    }

    /// The answer to a reply.
    pub open spec fn next(self, reply: ReplyView) -> (
        DropdownModel,
        StepView<Result<(), FormError>>,
    ) {
        let ok = reply is Done;
        match self.phase {
            DropdownPhase::Start => if self.value.len() == 0 {
                self.finish(Err(FormError::EmptyValue))
            } else {
                self.probe(0, 0)
            },
            DropdownPhase::AwaitSelector { keyword, variant } => if ok {
                self.entered(self.entry_on(ElementRef::Located).next(true))
            } else if variant == 0 {
                self.probe(keyword as int, 1)
            } else {
                self.probe(keyword + 1, 0)
            },
            DropdownPhase::AwaitCandidates => match reply {
                ReplyView::Count(count) => self.inspect(0, count),
                _ => self.finish(Err(FormError::BrowserCall)),
            },
            DropdownPhase::AwaitLabel { index, count } => match reply {
                ReplyView::Attribute(Some(label)) => if label_matches(label, self.keywords) {
                    self.entered(self.entry_on(ElementRef::Listed(index)).next(true))
                } else {
                    self.inspect(index + 1, count)
                },
                ReplyView::Attribute(None) => self.inspect(index + 1, count),
                _ => self.finish(Err(FormError::BrowserCall)),
            },
            DropdownPhase::Entering => self.entered(self.entry.next(ok)),
            DropdownPhase::SettlingTyped => self.run(
                CommandView::PressKey { key: Key::Enter, modifier: None },
                DropdownPhase::AwaitEnter,
            ),
            DropdownPhase::AwaitEnter => if ok {
                self.run(
                    CommandView::Sleep { millis: DROPDOWN_DONE_SETTLE_MS },
                    DropdownPhase::SettlingDone,
                )
            } else {
                self.finish(Err(FormError::BrowserCall))
            },
            DropdownPhase::SettlingDone => self.finish(Ok(())),
            DropdownPhase::Finished => self.finish(Err(FormError::AlreadyFinished)),
        }
    }
}

/// The state machine that sets one dropdown of the form.
pub struct Dropdown {
    keywords: Vec<String>,
    value: String,
    phase: DropdownPhase,
    entry: FieldEntry,
}

impl View for Dropdown {
    type V = DropdownModel;

    closed spec fn view(&self) -> DropdownModel {
        DropdownModel {
            keywords: texts_of(self.keywords@),
            value: self.value@,
            phase: self.phase,
            entry: self.entry@,
        }
    }
}

impl Dropdown {
    /// The dropdown that `keywords` describe, to be set to `desired_value`
    /// without its surrounding whitespace.
    pub fn new(keywords: Vec<String>, desired_value: &str) -> (r: Self)
        ensures
            r@ == DropdownModel::initial(texts_of(keywords@), trimmed(desired_value@)),
    {
        let value = trim(desired_value);
        Dropdown {
            keywords,
            value: value.to_owned(),
            phase: DropdownPhase::Start,
            entry: FieldEntry::new(ElementRef::Located, value, DROPDOWN_CLEAR_SETTLE_MS),
        }
    }

    fn finish(&mut self, outcome: Result<(), FormError>) -> (step: Step<Result<(), FormError>>)
        ensures
            (final(self)@, step@) == old(self)@.finish(outcome),
    {
        self.phase = DropdownPhase::Finished;
        Step::Finished(outcome)
    }

    fn run(&mut self, command: Command, phase: DropdownPhase) -> (step: Step<
        Result<(), FormError>,
    >)
        ensures
            (final(self)@, step@) == old(self)@.run(command@, phase),
    {
        self.phase = phase;
        Step::Run(command)
    }

    fn probe(&mut self, keyword: usize, variant: usize) -> (step: Step<Result<(), FormError>>)
        requires
            variant <= 1,
        ensures
            (final(self)@, step@) == old(self)@.probe(keyword as int, variant as int),
    {
        if keyword < self.keywords.len() {
            let selector = attribute_selector_for(self.keywords[keyword].as_str(), variant);
            assert(texts_of(self.keywords@)[keyword as int] == self.keywords@[keyword as int]@);
            self.run(
                Command::WaitForElement { selector, timeout_ms: DROPDOWN_TIMEOUT_MS },
                DropdownPhase::AwaitSelector { keyword, variant },
            )
        } else {
            self.run(
                Command::FindElements { selector: "input[role=\"combobox\"]".to_owned() },
                DropdownPhase::AwaitCandidates,
            )
        }
    }

    fn inspect(&mut self, index: usize, count: usize) -> (step: Step<Result<(), FormError>>)
        ensures
            (final(self)@, step@) == old(self)@.inspect(index as int, count),
    {
        if index < count {
            self.run(
                Command::Attribute {
                    element: ElementRef::Listed(index),
                    name: "aria-label".to_owned(),
                },
                DropdownPhase::AwaitLabel { index, count },
            )
        } else {
            self.finish(Err(FormError::DropdownNotFound))
        }
    }

    fn inspect_after(&mut self, index: usize, count: usize) -> (step: Step<Result<(), FormError>>)
        ensures
            (final(self)@, step@) == old(self)@.inspect(index + 1, count),
    {
        if index < count {
            self.inspect(index + 1, count)
        } else {
            self.finish(Err(FormError::DropdownNotFound))
        }
    }

    fn enter(&mut self, ok: bool) -> (step: Step<Result<(), FormError>>)
        ensures
            (final(self)@, step@) == old(self)@.entered(old(self)@.entry.next(ok)),
    {
        match self.entry.advance(ok) {
            Step::Run(command) => self.run(command, DropdownPhase::Entering),
            Step::Finished(EntryOutcome::Typed) => self.run(
                Command::Sleep { millis: DROPDOWN_TYPED_SETTLE_MS },
                DropdownPhase::SettlingTyped,
            ),
            Step::Finished(EntryOutcome::Failed) => self.finish(Err(FormError::BrowserCall)),
        }
    }

    fn enter_on(&mut self, element: ElementRef) -> (step: Step<Result<(), FormError>>)
        ensures
            (final(self)@, step@) == old(self)@.entered(old(self)@.entry_on(element).next(true)),
    {
        self.entry = FieldEntry::new(element, self.value.as_str(), DROPDOWN_CLEAR_SETTLE_MS);
        self.enter(true)
    }

    /// The next answer, given the reply to the last command. The first call
    /// starts the dropdown, whatever the reply.
    pub fn advance(&mut self, reply: &Reply) -> (step: Step<Result<(), FormError>>)
        ensures
            (final(self)@, step@) == old(self)@.next(reply@),
    {
        let ok = reply.is_done();
        match self.phase {
            DropdownPhase::Start => if self.value.as_str().is_empty() {
                self.finish(Err(FormError::EmptyValue))
            } else {
                self.probe(0, 0)
            },
            DropdownPhase::AwaitSelector { keyword, variant } => if ok {
                self.enter_on(ElementRef::Located)
            } else if variant == 0 {
                self.probe(keyword, 1)
            } else if keyword < self.keywords.len() {
                self.probe(keyword + 1, 0)
            } else {
                self.run(
                    Command::FindElements { selector: "input[role=\"combobox\"]".to_owned() },
                    DropdownPhase::AwaitCandidates,
                )
            },
            DropdownPhase::AwaitCandidates => match reply {
                Reply::Count(count) => self.inspect(0, *count),
                _ => self.finish(Err(FormError::BrowserCall)),
            },
            DropdownPhase::AwaitLabel { index, count } => match reply {
                Reply::Attribute(Some(label)) => if label_names_keyword(
                    label.as_str(),
                    &self.keywords,
                ) {
                    self.enter_on(ElementRef::Listed(index))
                } else {
                    self.inspect_after(index, count)
                },
                Reply::Attribute(None) => self.inspect_after(index, count),
                _ => self.finish(Err(FormError::BrowserCall)),
            },
            DropdownPhase::Entering => self.enter(ok),
            DropdownPhase::SettlingTyped => self.run(
                Command::PressKey { key: Key::Enter, modifier: None },
                DropdownPhase::AwaitEnter,
            ),
            DropdownPhase::AwaitEnter => if ok {
                self.run(
                    Command::Sleep { millis: DROPDOWN_DONE_SETTLE_MS },
                    DropdownPhase::SettlingDone,
                )
            } else {
                self.finish(Err(FormError::BrowserCall))
            },
            DropdownPhase::SettlingDone => self.finish(Ok(())),
            DropdownPhase::Finished => self.finish(Err(FormError::AlreadyFinished)),
        }
    }
}

/// A dropdown that is to be set to an empty value, or to whitespace alone,
/// fails at once: its first answer is the error, and no command goes to the
/// browser.
pub proof fn lemma_empty_value_fails_at_once(
    keywords: Seq<Seq<char>>,
    desired_value: Seq<char>,
    reply: ReplyView,
)
    requires
        is_blank_text(desired_value),
    ensures
        DropdownModel::initial(keywords, trimmed(desired_value)).next(reply).1
            == StepView::<Result<(), FormError>>::Finished(Err(FormError::EmptyValue)),
{
}

/// With a value to set, a dropdown starts by looking for its input: the
/// first answer is a command, never the error of an empty value.
pub proof fn lemma_value_starts_search(
    keywords: Seq<Seq<char>>,
    desired_value: Seq<char>,
    reply: ReplyView,
)
    requires
        !is_blank_text(desired_value),
    ensures
        DropdownModel::initial(keywords, trimmed(desired_value)).next(reply).1 is Run,
{
}

/// The keywords of a dropdown are tried in order, each by its accessible
/// label and then by its test id; the first selector that finds an input ends
/// the search, and only when none has found one are the combobox inputs
/// listed.
pub proof fn lemma_selectors_by_keyword(
    m: DropdownModel,
    keyword: usize,
    variant: usize,
    reply: ReplyView,
)
    requires
        m.phase == (DropdownPhase::AwaitSelector { keyword, variant }),
        !(reply is Done),
    ensures
        variant == 0 && keyword < m.keywords.len() ==> m.next(reply).1 == StepView::<
            Result<(), FormError>,
        >::Run(
            CommandView::WaitForElement {
                selector: attribute_selector(m.keywords[keyword as int], 1),
                timeout_ms: DROPDOWN_TIMEOUT_MS,
            },
        ),
        variant != 0 && keyword + 1 < m.keywords.len() ==> m.next(reply).1 == StepView::<
            Result<(), FormError>,
        >::Run(
            CommandView::WaitForElement {
                selector: attribute_selector(m.keywords[keyword + 1], 0),
                timeout_ms: DROPDOWN_TIMEOUT_MS,
            },
        ),
        variant != 0 && keyword + 1 >= m.keywords.len() ==> m.next(reply).1 == StepView::<
            Result<(), FormError>,
        >::Run(CommandView::FindElements { selector: "input[role=\"combobox\"]"@ }),
{
}

/// A dropdown types nothing but its value, in order: the entry that it starts
/// on the input it found holds the value, and every character that it sends
/// while the entry runs is the first of those that the entry has still to
/// send.
pub proof fn lemma_dropdown_types_value(m: DropdownModel, reply: ReplyView)
    requires
        m.phase == DropdownPhase::Entering,
        m.entry.text == m.value,
        m.value.len() <= usize::MAX,
    ensures
        m.next(reply).0.entry.text == m.value,
        m.next(reply).0.value == m.value,
        m.next(reply).1 matches StepView::Run(CommandView::SendCharacter { character }) ==> {
            &&& remaining(m.entry).len() > 0
            &&& character == remaining(m.entry)[0]
            &&& remaining(m.next(reply).0.entry) == remaining(m.entry).drop_first()
        },
{
    lemma_sends_text_in_order(m.entry, reply is Done);
}

} // verus!
