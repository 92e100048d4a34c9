//! Badges from a template: filling the placeholders, and the steps of
//! compiling and printing one badge.
//!
//! A template is plain text in which the tokens `{{reference}}`, `{{name}}`,
//! `{{discord}}` and `{{pizza}}` mark where the fields of a badge go. The
//! document compiler and the print spooler are outside programs: the job
//! here only says which of them is to run next and on what input, and is
//! told how each run ended.

use std::path::PathBuf;
use vstd::prelude::*;

use crate::checkin_output::{project, CheckinPrintable, PrintableProjection, ProjectionView};
use crate::text::{contains, lemma_replaced_absent, matches_at, occurs, replace_all, replaced};

verus! {

/// `std::path::PathBuf`: a path is carried through here and never read.
#[verifier::external_type_specification]
#[verifier::external_body]
pub struct ExPathBuf(PathBuf);

/// One of the four places of a template that a badge fills.
#[derive(Debug, Clone, Copy, PartialEq, Eq)]
pub enum Placeholder {
    Reference,
    Name,
    Discord,
    Pizza,
}

impl Placeholder {
    /// The placeholder's name.
    pub open spec fn spec_name(self) -> Seq<char> {
        match self {
            Placeholder::Reference => "reference"@,
            Placeholder::Name => "name"@,
            Placeholder::Discord => "discord"@,
            Placeholder::Pizza => "pizza"@,
        }
    }

    /// The token that marks the placeholder in a template: its name in
    /// double braces.
    pub open spec fn spec_token(self) -> Seq<char> {
        match self {
            Placeholder::Reference => "{{reference}}"@,
            Placeholder::Name => "{{name}}"@,
            Placeholder::Discord => "{{discord}}"@,
            Placeholder::Pizza => "{{pizza}}"@,
        }
    }

    /// The field of a badge that goes in the placeholder.
    pub open spec fn value(self, badge: ProjectionView) -> Seq<char> {
        match self {
            Placeholder::Reference => badge.reference,
            Placeholder::Name => badge.name,
            Placeholder::Discord => badge.discord,
            Placeholder::Pizza => badge.pizza,
        }
    }

    /// The placeholder's name.
    pub fn name(self) -> (out: &'static str)
        ensures
            out@ == self.spec_name(),
    {
        match self {
            Placeholder::Reference => "reference",
            Placeholder::Name => "name",
            Placeholder::Discord => "discord",
            Placeholder::Pizza => "pizza",
        }
    }

    /// The token that marks the placeholder in a template.
    pub fn token(self) -> (out: &'static str)
        ensures
            out@ == self.spec_token(),
    {
        match self {
            Placeholder::Reference => "{{reference}}",
            Placeholder::Name => "{{name}}",
            Placeholder::Discord => "{{discord}}",
            Placeholder::Pizza => "{{pizza}}",
        }
    }
}

/// `value` with a backslash put before every double quote.
pub open spec fn escaped(value: Seq<char>) -> Seq<char> {
    replaced(value, "\""@, "\\\""@)
}

/// `value` with a backslash put before every double quote. This keeps a
/// quote in a name from ending the compiler's string early; it is no more
/// than that.
pub fn escape_quotes(value: &str) -> (out: String)
    ensures
        out@ == escaped(value@),
{
    replace_all(value, "\"", "\\\"")
}

/// A value without a double quote is its own escape: it goes into the
/// template as it is.
pub proof fn lemma_escaped_plain(value: Seq<char>)
    requires
        forall|at: int| 0 <= at < value.len() ==> value[at] != '"',
    ensures
        escaped(value) == value,
{
    reveal_strlit("\"");
    assert forall|at: int| !matches_at(value, at, "\""@) by {
        if matches_at(value, at, "\""@) {
            assert(value.subrange(at, at + 1)[0] == '"');
        }
    }
    lemma_replaced_absent(value, "\""@, "\\\""@);
}

/// `text` with every token of `placeholder` replaced by the escaped `value`.
pub open spec fn substituted(text: Seq<char>, placeholder: Placeholder, value: Seq<char>) -> Seq<
    char,
> {
    replaced(text, placeholder.spec_token(), escaped(value))
}

/// `text` with every token of `placeholder` replaced by the escaped `value`.
pub fn substitute(text: &str, placeholder: Placeholder, value: &str) -> (out: String)
    ensures
        out@ == substituted(text@, placeholder, value@),
{
    let safe = escape_quotes(value);
    replace_all(text, placeholder.token(), safe.as_str())
}

/// The template after the first `done` placeholders were filled, in the
/// order reference, name, discord, pizza. Each is filled into what the one
/// before left.
pub open spec fn filled_upto(template: Seq<char>, badge: ProjectionView, done: nat) -> Seq<char>
    decreases done,
{
    if done == 0 {
        template
    } else {
        let before = filled_upto(template, badge, (done - 1) as nat);
        let placeholder = nth_placeholder((done - 1) as nat);
        substituted(before, placeholder, placeholder.value(badge))
    }
}

/// The placeholders in the order they are filled.
pub open spec fn nth_placeholder(n: nat) -> Placeholder {
    if n == 0 {
        Placeholder::Reference
    } else if n == 1 {
        Placeholder::Name
    } else if n == 2 {
        Placeholder::Discord
    } else {
        Placeholder::Pizza
    }
}

/// The template with all four placeholders filled.
pub open spec fn filled(template: Seq<char>, badge: ProjectionView) -> Seq<char> {
    filled_upto(template, badge, 4)
}

/// Whether the `n`-th placeholder finds no token of its own when its turn
/// comes.
pub open spec fn goes_unused(template: Seq<char>, badge: ProjectionView, n: nat) -> bool {
    !occurs(filled_upto(template, badge, n), nth_placeholder(n).spec_token())
}

/// The first placeholder, in the order they are filled, that finds no token
/// of its own when its turn comes.
pub open spec fn first_unused(template: Seq<char>, badge: ProjectionView) -> Option<Placeholder> {
    if goes_unused(template, badge, 0) {
        Some(Placeholder::Reference)
    } else if goes_unused(template, badge, 1) {
        Some(Placeholder::Name)
    } else if goes_unused(template, badge, 2) {
        Some(Placeholder::Discord)
    } else if goes_unused(template, badge, 3) {
        Some(Placeholder::Pizza)
    } else {
        None
    }
}

/// Why a badge could not be printed.
#[derive(Debug, Clone, PartialEq, Eq)]
pub enum TypstCheckinOutputError {
    /// An outside program offered no input channel, or the compiler's could
    /// not be written.
    NoStdin,
    /// An outside program offered no output channel.
    NoStdout,
    /// The template could not be read; with the reason.
    TemplateReadError(String),
    /// An outside program could not be started, written to or waited for, or
    /// the compiler ended abnormally; with the reason.
    CommandIOError(String),
    /// The template has no token for the placeholder of this name.
    VariableNotFound(String),
}

impl TypstCheckinOutputError {
    /// The error in words.
    pub open spec fn spec_message(&self) -> Seq<char> {
        match self {
            TypstCheckinOutputError::NoStdin => "Failed to get stdin"@,
            TypstCheckinOutputError::NoStdout => "Failed to get stdout"@,
            TypstCheckinOutputError::TemplateReadError(why) => "Failed to read the template: "@
                + why@,
            TypstCheckinOutputError::CommandIOError(why) => "Failed to read/write to a command: "@
                + why@,
            TypstCheckinOutputError::VariableNotFound(name) => "Failed to find variable "@ + name@
                + " in template"@,
        }
    }

    /// The error in words.
    pub fn message(&self) -> (out: String)
        ensures
            out@ == self.spec_message(),
    {
        match self {
            TypstCheckinOutputError::NoStdin => "Failed to get stdin".to_owned(),
            TypstCheckinOutputError::NoStdout => "Failed to get stdout".to_owned(),
            TypstCheckinOutputError::TemplateReadError(why) => {
                let mut out = "Failed to read the template: ".to_owned();
                out.append(why.as_str());
                out
            },
            TypstCheckinOutputError::CommandIOError(why) => {
                let mut out = "Failed to read/write to a command: ".to_owned();
                out.append(why.as_str());
                out
            },
            TypstCheckinOutputError::VariableNotFound(name) => {
                let mut out = "Failed to find variable ".to_owned();
                out.append(name.as_str());
                out.append(" in template");
                out
            },
        }
    }
}

/// Fills the four placeholders of `template` from `checkin`, whether or not
/// each of them occurs.
pub fn fill<P: CheckinPrintable>(template: &str, checkin: &P) -> (out: String)
    ensures
        out@ == filled(template@, checkin.projection()),
{
    let badge = project(checkin);
    proof {
        reveal_with_fuel(filled_upto, 5);
    }
    let first = substitute(template, Placeholder::Reference, badge.reference.as_str());
    let second = substitute(first.as_str(), Placeholder::Name, badge.name.as_str());
    let third = substitute(second.as_str(), Placeholder::Discord, badge.discord.as_str());
    substitute(third.as_str(), Placeholder::Pizza, badge.pizza.as_str())
}

/// Fills the four placeholders of `template` from `checkin`, and insists
/// that each of them is used: a placeholder that finds no token of its own
/// when its turn comes fails the rendering under its name.
pub fn render<P: CheckinPrintable>(template: &str, checkin: &P) -> (out: Result<
    String,
    TypstCheckinOutputError,
>)
    ensures
        match first_unused(template@, checkin.projection()) {
            Some(placeholder) => out matches Err(TypstCheckinOutputError::VariableNotFound(name))
                && name@ == placeholder.spec_name(),
            None => out matches Ok(text) && text@ == filled(template@, checkin.projection()),
        },
{
    let badge = project(checkin);
    proof {
        reveal_with_fuel(filled_upto, 5);
    }
    if !contains(template, Placeholder::Reference.token()) {
        return Err(TypstCheckinOutputError::VariableNotFound(Placeholder::Reference.name().to_owned()));
    }
    let first = substitute(template, Placeholder::Reference, badge.reference.as_str());
    if !contains(first.as_str(), Placeholder::Name.token()) {
        return Err(TypstCheckinOutputError::VariableNotFound(Placeholder::Name.name().to_owned()));
    }
    let second = substitute(first.as_str(), Placeholder::Name, badge.name.as_str());
    if !contains(second.as_str(), Placeholder::Discord.token()) {
        return Err(TypstCheckinOutputError::VariableNotFound(Placeholder::Discord.name().to_owned()));
    }
    let third = substitute(second.as_str(), Placeholder::Discord, badge.discord.as_str());
    if !contains(third.as_str(), Placeholder::Pizza.token()) {
        return Err(TypstCheckinOutputError::VariableNotFound(Placeholder::Pizza.name().to_owned()));
    }
    Ok(substitute(third.as_str(), Placeholder::Pizza, badge.pizza.as_str()))
}

/// Prints badges from the template at a path, through the document compiler
/// and the print spooler.
pub struct TypstCheckinOutput {
    /// Where the template is, for example `template/main.typ`.
    template_path: PathBuf,
}

impl TypstCheckinOutput {
    /// Where the template is.
    pub closed spec fn spec_template_path(&self) -> PathBuf {
        self.template_path
    }

    pub fn new(template_path: PathBuf) -> (output: Self)
        ensures
            output.spec_template_path() == template_path,
    {
        Self { template_path }
    }

    /// Where the template is. The compiler runs in the directory of this
    /// file, so that it finds the template's images and fonts.
    pub fn template_path(&self) -> (path: &PathBuf)
        ensures
            *path == self.spec_template_path(),
    {
        &self.template_path
    }
}

/// How one run of an outside program ended.
#[derive(Debug, PartialEq, Eq)]
pub enum StageOutcome {
    /// The program could not be started; with the reason.
    SpawnFailed(String),
    /// The program started without an input channel.
    NoStdin,
    /// The input could not be written; with the reason.
    WriteFailed(String),
    /// The program's end could not be waited for; with the reason.
    WaitFailed(String),
    /// The program ran to its end.
    Exited {
        /// Whether it ended normally, with status zero.
        success: bool,
        /// Its exit status in words.
        status: String,
        /// All it wrote to its output channel.
        stdout: Vec<u8>,
        /// All it wrote to its diagnostic channel.
        stderr: Vec<u8>,
    },
}

/// Where the printing of one badge stands.
#[derive(Debug, PartialEq, Eq)]
pub enum RenderState {
    /// The template is being read.
    ReadingTemplate { badge: PrintableProjection },
    /// The compiler runs on the filled template.
    Compiling { reference: String },
    /// The spooler runs on the compiled document.
    Printing { reference: String },
    /// The job has ended, one way or the other.
    Finished,
}

/// What happened outside since the job's last step.
#[derive(Debug, PartialEq, Eq)]
pub enum RenderEvent {
    /// The template was read, or could not be; with the text or the reason.
    TemplateRead(Result<String, String>),
    /// The program that was asked for has run.
    StageFinished(StageOutcome),
}

/// What is to be done outside next.
#[derive(Debug, PartialEq, Eq)]
pub enum RenderAction {
    /// Read the template file.
    ReadTemplate,
    /// Run the compiler in the template's directory on `input`, and collect
    /// all of its output.
    Compile { input: String },
    /// Run the spooler on `document`.
    Print { document: Vec<u8> },
    /// The job has ended: the reference of the badge that was printed, or
    /// why none was.
    Finish(Result<String, TypstCheckinOutputError>),
    /// The event was not awaited: it is dropped.
    Nothing,
}

/// One step of a job: where it stands now, what to do next, and what the
/// program that just ran had to say on its diagnostic channel, if anything.
#[derive(Debug, PartialEq, Eq)]
pub struct RenderStep {
    pub state: RenderState,
    pub action: RenderAction,
    pub diagnostics: Option<Vec<u8>>,
}

/// Diagnostic output is passed on where there is any.
pub open spec fn worth_reporting(stderr: Vec<u8>) -> Option<Vec<u8>> {
    if stderr@.len() == 0 {
        None
    } else {
        Some(stderr)
    }
}

/// The error a failed run of the compiler stands for, if it failed. A
/// compiler that ends abnormally has failed; what it wrote to its diagnostic
/// channel does not count either way.
pub open spec fn compile_failure(outcome: StageOutcome) -> Option<TypstCheckinOutputError> {
    match outcome {
        StageOutcome::SpawnFailed(why) => Some(TypstCheckinOutputError::CommandIOError(why)),
        StageOutcome::NoStdin => Some(TypstCheckinOutputError::NoStdin),
        StageOutcome::WriteFailed(_) => Some(TypstCheckinOutputError::NoStdin),
        StageOutcome::WaitFailed(why) => Some(TypstCheckinOutputError::CommandIOError(why)),
        StageOutcome::Exited { success, status, .. } => if success {
            None
        } else {
            Some(TypstCheckinOutputError::CommandIOError(status))
        },
    }
}

/// The error a failed run of the spooler stands for, if it failed. Once the
/// document was handed over and the spooler has ended, the badge counts as
/// printed.
pub open spec fn print_failure(outcome: StageOutcome) -> Option<TypstCheckinOutputError> {
    match outcome {
        StageOutcome::SpawnFailed(why) => Some(TypstCheckinOutputError::CommandIOError(why)),
        StageOutcome::NoStdin => Some(TypstCheckinOutputError::NoStdin),
        StageOutcome::WriteFailed(why) => Some(TypstCheckinOutputError::CommandIOError(why)),
        StageOutcome::WaitFailed(why) => Some(TypstCheckinOutputError::CommandIOError(why)),
        StageOutcome::Exited { .. } => None,
    }
}

/// What a program that ran to its end wrote to its diagnostic channel, where
/// that is worth passing on.
pub open spec fn diagnostics_of(outcome: StageOutcome) -> Option<Vec<u8>> {
    match outcome {
        StageOutcome::Exited { stderr, .. } => worth_reporting(stderr),
        _ => None,
    }
}

/// Whether `step` is the step a job in `state` takes on `event`.
pub open spec fn render_step(state: RenderState, event: RenderEvent, step: RenderStep) -> bool {
    match (state, event) {
        (RenderState::ReadingTemplate { badge }, RenderEvent::TemplateRead(Err(why))) => {
            &&& step.state == RenderState::Finished
            &&& step.action == RenderAction::Finish(
                Err(TypstCheckinOutputError::TemplateReadError(why)),
            )
            &&& step.diagnostics is None
        },
        (RenderState::ReadingTemplate { badge }, RenderEvent::TemplateRead(Ok(template))) => {
            &&& step.diagnostics is None
            &&& match first_unused(template@, badge@) {
                Some(placeholder) => {
                    &&& step.state == RenderState::Finished
                    &&& step.action matches RenderAction::Finish(
                        Err(TypstCheckinOutputError::VariableNotFound(name)),
                    )
                    &&& name@ == placeholder.spec_name()
                },
                None => {
                    &&& step.state == (RenderState::Compiling { reference: badge.reference })
                    &&& step.action matches RenderAction::Compile { input }
                    &&& input@ == filled(template@, badge@)
                },
            }
        },
        (RenderState::Compiling { reference }, RenderEvent::StageFinished(outcome)) => {
            &&& step.diagnostics == diagnostics_of(outcome)
            &&& match compile_failure(outcome) {
                Some(error) => {
                    &&& step.state == RenderState::Finished
                    &&& step.action == RenderAction::Finish(Err(error))
                },
                None => {
                    &&& step.state == (RenderState::Printing { reference })
                    &&& step.action == (RenderAction::Print { document: outcome->stdout })
                },
            }
        },
        (RenderState::Printing { reference }, RenderEvent::StageFinished(outcome)) => {
            &&& step.diagnostics == diagnostics_of(outcome)
            &&& step.state == RenderState::Finished
            &&& step.action == RenderAction::Finish(
                match print_failure(outcome) {
                    Some(error) => Err(error),
                    None => Ok(reference),
                },
            )
        },
        _ => {
            &&& step.state == state
            &&& step.action == RenderAction::Nothing
            &&& step.diagnostics is None
        },
    }
}

/// Diagnostic output is passed on where there is any.
fn report(stderr: Vec<u8>) -> (out: Option<Vec<u8>>)
    ensures
        out == worth_reporting(stderr),
{
    if stderr.len() == 0 {
        None
    } else {
        Some(stderr)
    }
}

impl TypstCheckinOutput {
    /// Starts the job that prints the badge of `checkin`: its fields are read
    /// off here, and the first thing to do is to read the template.
    pub fn checkin<P: CheckinPrintable>(&self, checkin: &P) -> (step: RenderStep)
        ensures
            step.state matches RenderState::ReadingTemplate { badge } && badge@
                == checkin.projection(),
            step.action == RenderAction::ReadTemplate,
            step.diagnostics is None,
    {
        RenderStep {
            state: RenderState::ReadingTemplate { badge: project(checkin) },
            action: RenderAction::ReadTemplate,
            diagnostics: None,
        }
    }
}

impl RenderState {
    /// Takes the job one step on, given what happened outside.
    pub fn advance(self, event: RenderEvent) -> (step: RenderStep)
        ensures
            render_step(self, event, step),
    {
        match (self, event) {
            (RenderState::ReadingTemplate { badge }, RenderEvent::TemplateRead(Err(why))) => {
                RenderStep {
                    state: RenderState::Finished,
                    action: RenderAction::Finish(
                        Err(TypstCheckinOutputError::TemplateReadError(why)),
                    ),
                    diagnostics: None,
                }
            },
            (RenderState::ReadingTemplate { badge }, RenderEvent::TemplateRead(Ok(template))) => {
                match render(template.as_str(), &badge) {
                    Err(error) => RenderStep {
                        state: RenderState::Finished,
                        action: RenderAction::Finish(Err(error)),
                        diagnostics: None,
                    },
                    Ok(input) => RenderStep {
                        state: RenderState::Compiling { reference: badge.reference },
                        action: RenderAction::Compile { input },
                        diagnostics: None,
                    },
                }
            },
            (RenderState::Compiling { reference }, RenderEvent::StageFinished(outcome)) => {
                match outcome {
                    StageOutcome::SpawnFailed(why) => failed(
                        TypstCheckinOutputError::CommandIOError(why),
                        None,
                    ),
                    StageOutcome::NoStdin => failed(TypstCheckinOutputError::NoStdin, None),
                    StageOutcome::WriteFailed(_) => failed(TypstCheckinOutputError::NoStdin, None),
                    StageOutcome::WaitFailed(why) => failed(
                        TypstCheckinOutputError::CommandIOError(why),
                        None,
                    ),
                    StageOutcome::Exited { success, status, stdout, stderr } => {
                        if success {
                            RenderStep {
                                state: RenderState::Printing { reference },
                                action: RenderAction::Print { document: stdout },
                                diagnostics: report(stderr),
                            }
                        } else {
                            failed(TypstCheckinOutputError::CommandIOError(status), report(stderr))
                        }
                    },
                }
            },
            (RenderState::Printing { reference }, RenderEvent::StageFinished(outcome)) => {
                match outcome {
                    StageOutcome::SpawnFailed(why) => failed(
                        TypstCheckinOutputError::CommandIOError(why),
                        None,
                    ),
                    StageOutcome::NoStdin => failed(TypstCheckinOutputError::NoStdin, None),
                    StageOutcome::WriteFailed(why) => failed(
                        TypstCheckinOutputError::CommandIOError(why),
                        None,
                    ),
                    StageOutcome::WaitFailed(why) => failed(
                        TypstCheckinOutputError::CommandIOError(why),
                        None,
                    ),
                    StageOutcome::Exited { success, status, stdout, stderr } => RenderStep {
                        state: RenderState::Finished,
                        action: RenderAction::Finish(Ok(reference)),
                        diagnostics: report(stderr),
                    },
                }
            },
            (state, _) => RenderStep {
                state,
                action: RenderAction::Nothing,
                diagnostics: None,
            },
        }
    }
}

/// The step that ends a job in failure.
fn failed(error: TypstCheckinOutputError, diagnostics: Option<Vec<u8>>) -> (step: RenderStep)
    ensures
        step.state == RenderState::Finished,
        step.action == RenderAction::Finish(Err(error)),
        step.diagnostics == diagnostics,
{
    RenderStep { state: RenderState::Finished, action: RenderAction::Finish(Err(error)), diagnostics }
}

} // verus!
