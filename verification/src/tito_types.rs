//! The records of the ticketing service, as the desk holds them.
//!
//! Timestamps, identifiers of the service and free-form values are kept as
//! the text they arrived in: nothing here reads inside them.

use vstd::hash_map::StringHashMap;
use vstd::prelude::*;

use crate::text::{decimal, decimal_text};

verus! {

/// A ticket that was checked in, as the checkin collection lists it.
#[derive(Debug, Clone, PartialEq, Eq)]
pub struct Checkin {
    /// When the checkin was created.
    pub created_at: String,
    /// When the checkin was deleted, if it was.
    pub deleted_at: Option<String>,
    /// The identifier of the checkin.
    pub id: u64,
    /// The identifier of the ticket that was checked in.
    pub ticket_id: u64,
    /// The reference of the ticket that was checked in.
    pub ticket_reference: Option<String>,
    /// The universally unique identifier of the checkin.
    pub uuid: String,
    /// When the checkin was last updated.
    pub updated_at: String,
}

/// A purchased ticket, as the ticket collection lists it.
#[derive(Debug, Clone, PartialEq, Eq)]
pub struct Ticket {
    pub created_at: String,
    pub email: Option<String>,
    pub first_name: Option<String>,
    pub id: u64,
    pub last_name: Option<String>,
    pub reference: Option<String>,
    pub registration_reference: String,
    pub release_title: String,
    pub slug: String,
    pub updated_at: String,
}

/// The body of the request that creates a checkin for a ticket.
#[derive(Debug, Clone, PartialEq, Eq)]
pub struct NewCheckinBody {
    checkin: NewCheckinBodyCheckin,
}

/// The service wants the ticket identifier one level down, under `checkin`.
#[derive(Debug, Clone, PartialEq, Eq)]
struct NewCheckinBodyCheckin {
    pub ticket_id: u64,
}

/// The JSON text of the request body for the ticket `ticket_id`.
pub open spec fn new_checkin_json(ticket_id: u64) -> Seq<char> {
    "{\"checkin\":{\"ticket_id\":"@ + decimal(ticket_id as nat) + "}}"@
}

impl NewCheckinBody {
    /// The ticket the checkin is asked for.
    pub closed spec fn spec_ticket_id(&self) -> u64 {
        self.checkin.ticket_id
    }

    pub fn new(ticket_id: u64) -> (body: Self)
        ensures
            body.spec_ticket_id() == ticket_id,
    {
        Self { checkin: NewCheckinBodyCheckin { ticket_id } }
    }

    /// The ticket the checkin is asked for.
    #[verifier::when_used_as_spec(spec_ticket_id)]
    pub fn ticket_id(&self) -> (id: u64)
        ensures
            id == self.spec_ticket_id(),
    {
        self.checkin.ticket_id
    }

    /// The body as the service reads it: `{"checkin":{"ticket_id":N}}`.
    pub fn to_json(&self) -> (json: String)
        ensures
            json@ == new_checkin_json(self.spec_ticket_id()),
    {
        let mut json = "{\"checkin\":{\"ticket_id\":".to_owned();
        let number = decimal_text(self.checkin.ticket_id);
        json.append(number.as_str());
        json.append("}}");
        json
    }
}

/// The list a ticket was checked in on.
#[derive(Debug, Clone, PartialEq, Eq)]
pub struct CheckinList {
    pub slug: String,
    pub title: String,
}

/// The event a ticket belongs to.
#[derive(Debug, Clone, PartialEq, Eq)]
pub struct Event {
    pub slug: String,
    pub title: String,
}

/// A title followed by its slug in brackets.
pub open spec fn titled(title: Seq<char>, slug: Seq<char>) -> Seq<char> {
    title + " ("@ + slug + ")"@
}

/// A title followed by its slug in brackets.
fn titled_text(title: &str, slug: &str) -> (out: String)
    ensures
        out@ == titled(title@, slug@),
{
    let mut out = title.to_owned();
    out.append(" (");
    out.append(slug);
    out.append(")");
    out
}

impl CheckinList {
    /// The list as one line: its title, then its slug in brackets.
    pub fn to_text(&self) -> (out: String)
        ensures
            out@ == titled(self.title@, self.slug@),
    {
        titled_text(self.title.as_str(), self.slug.as_str())
    }
}

impl Event {
    /// The event as one line: its title, then its slug in brackets.
    pub fn to_text(&self) -> (out: String)
        ensures
            out@ == titled(self.title@, self.slug@),
    {
        titled_text(self.title.as_str(), self.slug.as_str())
    }
}

/// One question of the registration form with the attendee's answer.
#[derive(Debug, Clone, PartialEq, Eq)]
pub struct Question {
    pub question: String,
    pub response: String,
}

/// A checkin as the push stream delivers it: complete in itself. Not to be
/// confused with [`Checkin`], which the checkin collection lists.
#[derive(Debug, Clone, PartialEq, Eq)]
pub struct WebhookCheckin {
    pub id: u64,
    pub slug: String,
    pub name: String,
    pub company_name: Option<String>,
    pub first_name: String,
    pub last_name: String,
    pub release_title: String,
    pub email: String,
    pub reference: String,
    pub registration_reference: String,
    pub checked_in: bool,
    pub checked_in_at: String,
    pub checkin_list: CheckinList,
    pub checkin_uuid: String,
    /// The free-form value the organiser attached, as JSON text.
    pub custom: Option<String>,
    pub event: Event,
    pub answers: Vec<Question>,
}

/// The text that `Debug` writes for a string: the string in double quotes,
/// with the characters that cannot stand there escaped.
pub uninterp spec fn debug_quoted(text: Seq<char>) -> Seq<char>;

/// `Debug` of `str`, from the standard library: the text in double quotes
/// with its escapes. The contract names the result and claims no more.
#[verifier::external_body]
fn quote(text: &str) -> (out: String)
    ensures
        out@ == debug_quoted(text@),
{
    format!("{:?}", text)
}

/// One answer as a record in braces, given the two texts already quoted.
pub open spec fn entry(question: Seq<char>, response: Seq<char>) -> Seq<char> {
    "Question { question: "@ + question + ", response: "@ + response + " }"@
}

/// The answers as records in braces, with a comma and a space between.
pub open spec fn entries(answers: Seq<Question>) -> Seq<char>
    decreases answers.len(),
{
    if answers.len() == 0 {
        Seq::empty()
    } else if answers.len() == 1 {
        entry(debug_quoted(answers[0].question@), debug_quoted(answers[0].response@))
    } else {
        entries(answers.drop_last()) + ", "@ + entry(
            debug_quoted(answers.last().question@),
            debug_quoted(answers.last().response@),
        )
    }
}

/// `before` with one more line: a label, a value and a line feed.
pub open spec fn with_line(before: Seq<char>, label: Seq<char>, value: Seq<char>) -> Seq<char> {
    before + label + value + "\n"@
}

/// A truth value in words.
pub open spec fn truth(value: bool) -> Seq<char> {
    if value {
        "true"@
    } else {
        "false"@
    }
}

/// A free-form value as it is shown: in `Some(..)`, or `None`.
pub open spec fn optional(value: Option<Seq<char>>) -> Seq<char> {
    match value {
        Some(text) => "Some("@ + text + ")"@,
        None => "None"@,
    }
}

/// A pushed check-in as lines of text, one field a line.
pub open spec fn checkin_text(checkin: WebhookCheckin) -> Seq<char> {
    let text = with_line(Seq::empty(), "Checkin ID: "@, decimal(checkin.id as nat));
    let text = with_line(text, "Slug: "@, checkin.slug@);
    let text = with_line(text, "Name: "@, checkin.first_name@ + " "@ + checkin.last_name@);
    let text = with_line(
        text,
        "Company: "@,
        match checkin.company_name {
            Some(company) => company@,
            None => Seq::empty(),
        },
    );
    let text = with_line(text, "Release Title: "@, checkin.release_title@);
    let text = with_line(text, "Email: "@, checkin.email@);
    let text = with_line(text, "Reference: "@, checkin.reference@);
    let text = with_line(text, "Registration Reference: "@, checkin.registration_reference@);
    let text = with_line(text, "Checked In: "@, truth(checkin.checked_in));
    let text = with_line(text, "Checked In At: "@, checkin.checked_in_at@);
    let text = with_line(
        text,
        "Checkin List: "@,
        titled(checkin.checkin_list.title@, checkin.checkin_list.slug@),
    );
    let text = with_line(text, "Checkin UUID: "@, checkin.checkin_uuid@);
    let text = with_line(
        text,
        "Custom: "@,
        optional(
            match checkin.custom {
                Some(custom) => Some(custom@),
                None => None,
            },
        ),
    );
    let text = with_line(text, "Event: "@, titled(checkin.event.title@, checkin.event.slug@));
    with_line(text, "Answers: "@, "["@ + entries(checkin.answers@) + "]"@)
}

/// Adds one line to `out`: a label, a value and a line feed.
fn push_line(out: &mut String, label: &str, value: &str)
    ensures
        final(out)@ == with_line(old(out)@, label@, value@),
{
    out.append(label);
    out.append(value);
    out.append("\n");
}

/// One answer as a record in braces, given the two texts already quoted.
pub fn entry_text(question: &str, response: &str) -> (out: String)
    ensures
        out@ == entry(question@, response@),
{
    let mut out = "Question { question: ".to_owned();
    out.append(question);
    out.append(", response: ");
    out.append(response);
    out.append(" }");
    out
}

/// The answers as records in braces, with a comma and a space between.
pub fn entries_text(answers: &Vec<Question>) -> (out: String)
    ensures
        out@ == entries(answers@),
{
    let mut out = String::new();
    let mut i: usize = 0;
    assert(answers@.subrange(0, 0) =~= Seq::<Question>::empty());
    while i < answers.len()
        invariant
            i <= answers.len(),
            out@ == entries(answers@.subrange(0, i as int)),
        decreases answers.len() - i,
    {
        let ghost before = answers@.subrange(0, i as int);
        let ghost now = answers@.subrange(0, i + 1);
        proof {
            assert(now.drop_last() =~= before);
            assert(now.last() == answers@[i as int]);
        }
        if i > 0 {
            out.append(", ");
        }
        let question = quote(answers[i].question.as_str());
        let response = quote(answers[i].response.as_str());
        let one = entry_text(question.as_str(), response.as_str());
        out.append(one.as_str());
        proof {
            if i == 0 {
                assert(out@ =~= entry(
                    debug_quoted(answers@[0].question@),
                    debug_quoted(answers@[0].response@),
                ));
            }
        }
        i = i + 1;
    }
    assert(answers@.subrange(0, answers.len() as int) =~= answers@);
    out
}

impl WebhookCheckin {
    /// The check-in as lines of text, one field a line, for a log or a
    /// terminal.
    pub fn to_text(&self) -> (out: String)
        ensures
            out@ == checkin_text(*self),
    {
        let mut out = String::new();
        let id = decimal_text(self.id);
        push_line(&mut out, "Checkin ID: ", id.as_str());
        push_line(&mut out, "Slug: ", self.slug.as_str());
        let mut name = self.first_name.clone();
        name.append(" ");
        name.append(self.last_name.as_str());
        push_line(&mut out, "Name: ", name.as_str());
        match &self.company_name {
            Some(company) => push_line(&mut out, "Company: ", company.as_str()),
            None => {
                push_line(&mut out, "Company: ", "");
                proof {
                    reveal_strlit("");
                    assert(""@ =~= Seq::<char>::empty());
                }
            },
        }
        push_line(&mut out, "Release Title: ", self.release_title.as_str());
        push_line(&mut out, "Email: ", self.email.as_str());
        push_line(&mut out, "Reference: ", self.reference.as_str());
        push_line(&mut out, "Registration Reference: ", self.registration_reference.as_str());
        if self.checked_in {
            push_line(&mut out, "Checked In: ", "true");
        } else {
            push_line(&mut out, "Checked In: ", "false");
        }
        push_line(&mut out, "Checked In At: ", self.checked_in_at.as_str());
        let list = self.checkin_list.to_text();
        push_line(&mut out, "Checkin List: ", list.as_str());
        push_line(&mut out, "Checkin UUID: ", self.checkin_uuid.as_str());
        match &self.custom {
            Some(custom) => {
                let mut shown = "Some(".to_owned();
                shown.append(custom.as_str());
                shown.append(")");
                push_line(&mut out, "Custom: ", shown.as_str());
            },
            None => push_line(&mut out, "Custom: ", "None"),
        }
        let event = self.event.to_text();
        push_line(&mut out, "Event: ", event.as_str());
        let mut answers = "[".to_owned();
        let listed = entries_text(&self.answers);
        answers.append(listed.as_str());
        answers.append("]");
        push_line(&mut out, "Answers: ", answers.as_str());
        out
    }
}

/// The answers of one ticket, each under the normalised key of its question.
pub struct Responses {
    answers: StringHashMap<String>,
}

impl View for Responses {
    type V = Map<Seq<char>, Seq<char>>;

    closed spec fn view(&self) -> Map<Seq<char>, Seq<char>> {
        self.answers@.map_values(|answer: String| answer@)
    }
}

impl Responses {
    /// No answers.
    pub fn new() -> (responses: Self)
        ensures
            responses@ == Map::<Seq<char>, Seq<char>>::empty(),
    {
        let responses = Responses { answers: StringHashMap::new() };
        assert(responses@ =~= Map::<Seq<char>, Seq<char>>::empty());
        responses
    }

    /// Puts `answer` under `key`, in place of what stood there.
    pub fn insert(&mut self, key: String, answer: String)
        ensures
            final(self)@ == old(self)@.insert(key@, answer@),
    {
        self.answers.insert(key, answer);
        assert(self@ =~= old(self)@.insert(key@, answer@));
    }

    /// The answer under `key`, if there is one.
    pub fn get(&self, key: &str) -> (answer: Option<&String>)
        ensures
            match answer {
                Some(text) => self@.contains_key(key@) && text@ == self@[key@],
                None => !self@.contains_key(key@),
            },
    {
        self.answers.get(key)
    }

    /// How many answers there are.
    pub fn len(&self) -> (count: usize)
        ensures
            count == self@.len(),
    {
        let count = self.answers.len();
        proof {
            assert(self@.dom() =~= self.answers@.dom());
        }
        count
    }
}

/// A ticket as the authenticated lookup returns it, cut down to what a badge
/// needs.
pub struct AdminTicket {
    pub name: String,
    pub reference: String,
    pub release_title: String,
    pub responses: Responses,
}

/// The envelope the authenticated lookup wraps a ticket in.
pub struct AdminTicketResponse {
    pub ticket: AdminTicket,
}

} // verus!
