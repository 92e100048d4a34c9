//! The printable projection: the four fields of a badge, and the release
//! title, read off whichever record a check-in arrived as.

use vstd::prelude::*;

use crate::text::same_text;
use crate::tito_types::{AdminTicket, Checkin, Question, Ticket, WebhookCheckin};
use crate::typst_checkin_output::Placeholder;

verus! {

/// What a badge shows, as plain text.
pub struct ProjectionView {
    pub name: Seq<char>,
    pub reference: Seq<char>,
    pub discord: Seq<char>,
    pub pizza: Seq<char>,
    pub release_title: Seq<char>,
}

/// A record that a badge can be printed from.
pub trait CheckinPrintable {
    /// The fields of the badge for this record.
    spec fn projection(&self) -> ProjectionView;

    fn name(&self) -> (out: String)
        ensures
            out@ == self.projection().name,
    ;

    fn reference(&self) -> (out: String)
        ensures
            out@ == self.projection().reference,
    ;

    fn discord(&self) -> (out: String)
        ensures
            out@ == self.projection().discord,
    ;

    fn pizza(&self) -> (out: String)
        ensures
            out@ == self.projection().pizza,
    ;

    fn release_title(&self) -> (out: String)
        ensures
            out@ == self.projection().release_title,
    ;
}

/// Somewhere a check-in can be sent to be shown or printed. What an
/// implementation does with the record is its own affair; the only promise
/// is the shape of the call.
pub trait CheckinOutput {
    type Error;

    fn checkin<P: CheckinPrintable>(&self, checkin: &P) -> Result<(), Self::Error>;
}

/// What stands on a badge in place of a field the record does not have.
pub open spec fn unknown() -> Seq<char> {
    "???"@
}

/// The form's question for the Discord handle, as the push stream words it.
pub open spec fn discord_question() -> Seq<char> {
    "What is your Discord username?"@
}

/// The form's question for the pizza, as the push stream words it.
pub open spec fn pizza_question() -> Seq<char> {
    "Pizza Choice!"@
}

/// The key of the Discord handle in an authenticated lookup.
pub open spec fn discord_key() -> Seq<char> {
    "what-is-your-discord-username"@
}

/// The key of the pizza in an authenticated lookup.
pub open spec fn pizza_key() -> Seq<char> {
    "pizza-choice"@
}

/// The response of the first answer whose question is exactly `prompt`.
pub open spec fn first_answer(answers: Seq<Question>, prompt: Seq<char>) -> Option<Seq<char>>
    decreases answers.len(),
{
    if answers.len() == 0 {
        None
    } else if answers[0].question@ == prompt {
        Some(answers[0].response@)
    } else {
        first_answer(answers.drop_first(), prompt)
    }
}

/// The answer under `key`, if the mapping has the key.
pub open spec fn keyed_answer(responses: Map<Seq<char>, Seq<char>>, key: Seq<char>) -> Option<
    Seq<char>,
> {
    if responses.contains_key(key) {
        Some(responses[key])
    } else {
        None
    }
}

/// The text held, if any.
pub open spec fn held(text: Option<String>) -> Option<Seq<char>> {
    match text {
        Some(t) => Some(t@),
        None => None,
    }
}

/// An answer, or the default where there is none.
pub open spec fn or_unknown(answer: Option<Seq<char>>) -> Seq<char> {
    match answer {
        Some(text) => text,
        None => unknown(),
    }
}

/// The answers that are wanting, named by the placeholder each would fill:
/// the Discord handle first, then the pizza. Each of them is worth a warning
/// to whoever runs the desk; the badge shows the default in its place.
pub open spec fn lacking(no_discord: bool, no_pizza: bool) -> Seq<Placeholder> {
    let first = if no_discord {
        seq![Placeholder::Discord]
    } else {
        Seq::empty()
    };
    if no_pizza {
        first.push(Placeholder::Pizza)
    } else {
        first
    }
}

/// `first_answer` finds nothing exactly when no question is `prompt`, and
/// otherwise gives the response at the least position whose question is.
pub proof fn lemma_first_answer(answers: Seq<Question>, prompt: Seq<char>)
    ensures
        first_answer(answers, prompt) is None <==> forall|i: int|
            0 <= i < answers.len() ==> answers[i].question@ != prompt,
        first_answer(answers, prompt) is Some ==> exists|i: int|
            0 <= i < answers.len() && answers[i].question@ == prompt && first_answer(
                answers,
                prompt,
            ) == Some(answers[i].response@) && forall|j: int|
                0 <= j < i ==> answers[j].question@ != prompt,
    decreases answers.len(),
{
    if answers.len() == 0 {
    } else if answers[0].question@ == prompt {
        assert(answers[0].question@ == prompt && first_answer(answers, prompt) == Some(
            answers[0].response@,
        ));
    } else {
        let rest = answers.drop_first();
        lemma_first_answer(rest, prompt);
        assert(forall|i: int| 0 <= i < rest.len() ==> rest[i] == answers[i + 1]);
        if first_answer(rest, prompt) is None {
            assert forall|i: int| 0 <= i < answers.len() implies answers[i].question@
                != prompt by {
                if i > 0 {
                    assert(rest[i - 1].question@ != prompt);
                }
            }
        } else {
            let k = choose|i: int|
                0 <= i < rest.len() && rest[i].question@ == prompt && first_answer(rest, prompt)
                    == Some(rest[i].response@) && forall|j: int|
                    0 <= j < i ==> rest[j].question@ != prompt;
            assert(answers[k + 1].question@ == prompt);
            assert forall|j: int| 0 <= j < k + 1 implies answers[j].question@ != prompt by {
                if j > 0 {
                    assert(rest[j - 1].question@ != prompt);
                }
            }
            assert(0 <= k + 1 < answers.len() && answers[k + 1].question@ == prompt
                && first_answer(answers, prompt) == Some(answers[k + 1].response@) && forall|
                j: int,
            |
                0 <= j < k + 1 ==> answers[j].question@ != prompt);
        }
    }
}

/// The response of the first answer whose question is exactly `prompt`.
pub fn answer_to(answers: &Vec<Question>, prompt: &str) -> (found: Option<String>)
    ensures
        match found {
            Some(text) => first_answer(answers@, prompt@) == Some(text@),
            None => first_answer(answers@, prompt@) is None,
        },
{
    let mut i: usize = 0;
    assert(answers@.subrange(0, answers.len() as int) =~= answers@);
    while i < answers.len()
        invariant
            i <= answers.len(),
            first_answer(answers@, prompt@) == first_answer(
                answers@.subrange(i as int, answers.len() as int),
                prompt@,
            ),
        decreases answers.len() - i,
    {
        let ghost rest = answers@.subrange(i as int, answers.len() as int);
        assert(rest[0] == answers@[i as int]);
        if same_text(answers[i].question.as_str(), prompt) {
            return Some(answers[i].response.clone());
        }
        assert(rest.drop_first() =~= answers@.subrange(i + 1, answers.len() as int));
        i = i + 1;
    }
    None
}

/// The answers that are wanting, given which of the two is.
fn wanting(no_discord: bool, no_pizza: bool) -> (missing: Vec<Placeholder>)
    ensures
        missing@ == lacking(no_discord, no_pizza),
{
    let mut missing: Vec<Placeholder> = Vec::new();
    if no_discord {
        missing.push(Placeholder::Discord);
    }
    if no_pizza {
        missing.push(Placeholder::Pizza);
    }
    assert(missing@ =~= lacking(no_discord, no_pizza));
    missing
}

/// The default text, `???`.
fn unknown_text() -> (out: String)
    ensures
        out@ == unknown(),
{
    "???".to_owned()
}

/// A copy of the text, or the default where there is none.
fn text_or_unknown(text: &Option<String>) -> (out: String)
    ensures
        out@ == or_unknown(held(*text)),
{
    match text {
        Some(text) => text.clone(),
        None => unknown_text(),
    }
}

impl WebhookCheckin {
    /// The Discord handle the attendee gave, if the form asked for it.
    pub fn discord_answer(&self) -> (found: Option<String>)
        ensures
            match found {
                Some(text) => first_answer(self.answers@, discord_question()) == Some(text@),
                None => first_answer(self.answers@, discord_question()) is None,
            },
    {
        answer_to(&self.answers, "What is your Discord username?")
    }

    /// The pizza the attendee chose, if the form asked for it.
    pub fn pizza_answer(&self) -> (found: Option<String>)
        ensures
            match found {
                Some(text) => first_answer(self.answers@, pizza_question()) == Some(text@),
                None => first_answer(self.answers@, pizza_question()) is None,
            },
    {
        answer_to(&self.answers, "Pizza Choice!")
    }

    /// The answers this check-in lacks.
    pub fn missing_answers(&self) -> (missing: Vec<Placeholder>)
        ensures
            missing@ == lacking(
                first_answer(self.answers@, discord_question()) is None,
                first_answer(self.answers@, pizza_question()) is None,
            ),
    {
        wanting(self.discord_answer().is_none(), self.pizza_answer().is_none())
    }
}

impl CheckinPrintable for WebhookCheckin {
    open spec fn projection(&self) -> ProjectionView {
        ProjectionView {
            name: self.name@,
            reference: self.reference@,
            discord: or_unknown(first_answer(self.answers@, discord_question())),
            pizza: or_unknown(first_answer(self.answers@, pizza_question())),
            release_title: self.release_title@,
        }
    }

    fn name(&self) -> (out: String) {
        self.name.clone()
    }

    fn reference(&self) -> (out: String) {
        self.reference.clone()
    }

    fn discord(&self) -> (out: String)
        ensures
            (forall|i: int|
                0 <= i < self.answers@.len() ==> self.answers@[i].question@ != discord_question())
                ==> out@ == unknown(),
    {
        proof {
            lemma_first_answer(self.answers@, discord_question());
        }
        match self.discord_answer() {
            Some(text) => text,
            None => unknown_text(),
        }
    }

    fn pizza(&self) -> (out: String)
        ensures
            (forall|i: int|
                0 <= i < self.answers@.len() ==> self.answers@[i].question@ != pizza_question())
                ==> out@ == unknown(),
    {
        proof {
            lemma_first_answer(self.answers@, pizza_question());
        }
        match self.pizza_answer() {
            Some(text) => text,
            None => unknown_text(),
        }
    }

    fn release_title(&self) -> (out: String) {
        self.release_title.clone()
    }
}

impl AdminTicket {
    /// The Discord handle the attendee gave, if the lookup holds it.
    pub fn discord_answer(&self) -> (found: Option<String>)
        ensures
            match found {
                Some(text) => keyed_answer(self.responses@, discord_key()) == Some(text@),
                None => keyed_answer(self.responses@, discord_key()) is None,
            },
    {
        match self.responses.get("what-is-your-discord-username") {
            Some(text) => Some(text.clone()),
            None => None,
        }
    }

    /// The pizza the attendee chose, if the lookup holds it.
    pub fn pizza_answer(&self) -> (found: Option<String>)
        ensures
            match found {
                Some(text) => keyed_answer(self.responses@, pizza_key()) == Some(text@),
                None => keyed_answer(self.responses@, pizza_key()) is None,
            },
    {
        match self.responses.get("pizza-choice") {
            Some(text) => Some(text.clone()),
            None => None,
        }
    }

    /// The answers this ticket lacks.
    pub fn missing_answers(&self) -> (missing: Vec<Placeholder>)
        ensures
            missing@ == lacking(
                !self.responses@.contains_key(discord_key()),
                !self.responses@.contains_key(pizza_key()),
            ),
    {
        wanting(self.discord_answer().is_none(), self.pizza_answer().is_none())
    }
}

impl CheckinPrintable for AdminTicket {
    open spec fn projection(&self) -> ProjectionView {
        ProjectionView {
            name: self.name@,
            reference: self.reference@,
            discord: or_unknown(keyed_answer(self.responses@, discord_key())),
            pizza: or_unknown(keyed_answer(self.responses@, pizza_key())),
            release_title: self.release_title@,
        }
    }

    fn name(&self) -> (out: String) {
        self.name.clone()
    }

    fn reference(&self) -> (out: String) {
        self.reference.clone()
    }

    fn discord(&self) -> (out: String)
        ensures
            !self.responses@.contains_key(discord_key()) ==> out@ == unknown(),
    {
        match self.discord_answer() {
            Some(text) => text,
            None => unknown_text(),
        }
    }

    fn pizza(&self) -> (out: String)
        ensures
            !self.responses@.contains_key(pizza_key()) ==> out@ == unknown(),
    {
        match self.pizza_answer() {
            Some(text) => text,
            None => unknown_text(),
        }
    }

    fn release_title(&self) -> (out: String) {
        self.release_title.clone()
    }
}

/// A first and a last name as one name: both with a space between, the one
/// that is there, or nothing.
pub open spec fn full_name(first: Option<Seq<char>>, last: Option<Seq<char>>) -> Option<
    Seq<char>,
> {
    match (first, last) {
        (Some(f), Some(l)) => Some(f + " "@ + l),
        (Some(f), None) => Some(f),
        (None, Some(l)) => Some(l),
        (None, None) => None,
    }
}

impl CheckinPrintable for Ticket {
    /// A ticket of the collection carries no answers: both are the default.
    open spec fn projection(&self) -> ProjectionView {
        ProjectionView {
            name: or_unknown(full_name(held(self.first_name), held(self.last_name))),
            reference: or_unknown(held(self.reference)),
            discord: unknown(),
            pizza: unknown(),
            release_title: self.release_title@,
        }
    }

    fn name(&self) -> (out: String) {
        match (&self.first_name, &self.last_name) {
            (Some(first), Some(last)) => {
                let mut out = first.clone();
                out.append(" ");
                out.append(last.as_str());
                out
            },
            (Some(first), None) => first.clone(),
            (None, Some(last)) => last.clone(),
            (None, None) => unknown_text(),
        }
    }

    fn reference(&self) -> (out: String) {
        text_or_unknown(&self.reference)
    }

    fn discord(&self) -> (out: String) {
        unknown_text()
    }

    fn pizza(&self) -> (out: String) {
        unknown_text()
    }

    fn release_title(&self) -> (out: String) {
        self.release_title.clone()
    }
}

impl CheckinPrintable for Checkin {
    /// A checkin of the collection knows its ticket's reference at most:
    /// every other field is the default.
    open spec fn projection(&self) -> ProjectionView {
        ProjectionView {
            name: unknown(),
            reference: or_unknown(held(self.ticket_reference)),
            discord: unknown(),
            pizza: unknown(),
            release_title: unknown(),
        }
    }

    fn name(&self) -> (out: String) {
        unknown_text()
    }

    fn reference(&self) -> (out: String) {
        text_or_unknown(&self.ticket_reference)
    }

    fn discord(&self) -> (out: String) {
        unknown_text()
    }

    fn pizza(&self) -> (out: String) {
        unknown_text()
    }

    fn release_title(&self) -> (out: String) {
        unknown_text()
    }
}

/// The fields of a badge, read off a record once and held as text.
#[derive(Debug, Clone, PartialEq, Eq)]
pub struct PrintableProjection {
    pub name: String,
    pub reference: String,
    pub discord: String,
    pub pizza: String,
    pub release_title: String,
}

impl View for PrintableProjection {
    type V = ProjectionView;

    open spec fn view(&self) -> ProjectionView {
        ProjectionView {
            name: self.name@,
            reference: self.reference@,
            discord: self.discord@,
            pizza: self.pizza@,
            release_title: self.release_title@,
        }
    }
}

impl CheckinPrintable for PrintableProjection {
    open spec fn projection(&self) -> ProjectionView {
        self@
    }

    fn name(&self) -> (out: String) {
        self.name.clone()
    }

    fn reference(&self) -> (out: String) {
        self.reference.clone()
    }

    fn discord(&self) -> (out: String) {
        self.discord.clone()
    }

    fn pizza(&self) -> (out: String) {
        self.pizza.clone()
    }

    fn release_title(&self) -> (out: String) {
        self.release_title.clone()
    }
}

/// Reads the fields of a badge off `record`.
pub fn project<P: CheckinPrintable>(record: &P) -> (out: PrintableProjection)
    ensures
        out@ == record.projection(),
{
    PrintableProjection {
        name: record.name(),
        reference: record.reference(),
        discord: record.discord(),
        pizza: record.pizza(),
        release_title: record.release_title(),
    }
}

} // verus!
