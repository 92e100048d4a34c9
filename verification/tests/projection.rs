use hacknotts_checkin::checkin_output::{answer_to, project, CheckinPrintable, PrintableProjection};
use hacknotts_checkin::typst_checkin_output::Placeholder;
use hacknotts_checkin::tito_types::{
    entries_text, entry_text, AdminTicket, Checkin, CheckinList, Event, Question, Responses,
    Ticket, WebhookCheckin,
};

fn question(question: &str, response: &str) -> Question {
    Question { question: question.to_string(), response: response.to_string() }
}

fn webhook_checkin(answers: Vec<Question>) -> WebhookCheckin {
    WebhookCheckin {
        id: 1,
        slug: "ti_test".to_string(),
        name: "James Harvey".to_string(),
        company_name: None,
        first_name: "James".to_string(),
        last_name: "Harvey".to_string(),
        release_title: "Hacker".to_string(),
        email: "james@example.com".to_string(),
        reference: "HKUW-1".to_string(),
        registration_reference: "HKUW".to_string(),
        checked_in: true,
        checked_in_at: "2024-10-26T09:00:00+00:00".to_string(),
        checkin_list: CheckinList { slug: "chk_test".to_string(), title: "Front desk".to_string() },
        checkin_uuid: "0b8a4f0e-1b1a-4d4e-9c55-6d7e3f0a2b11".to_string(),
        custom: None,
        event: Event { slug: "hacknotts-24".to_string(), title: "HackNotts 24".to_string() },
        answers,
    }
}

fn admin_ticket(pairs: &[(&str, &str)]) -> AdminTicket {
    let mut responses = Responses::new();
    for (key, answer) in pairs {
        responses.insert(key.to_string(), answer.to_string());
    }
    AdminTicket {
        name: "Ada Lovelace".to_string(),
        reference: "ABCD-1".to_string(),
        release_title: "Hacker".to_string(),
        responses,
    }
}

fn ticket(first: Option<&str>, last: Option<&str>, reference: Option<&str>) -> Ticket {
    Ticket {
        created_at: "2024-10-01T12:00:00+00:00".to_string(),
        email: None,
        first_name: first.map(str::to_string),
        id: 5,
        last_name: last.map(str::to_string),
        reference: reference.map(str::to_string),
        registration_reference: "ABCD".to_string(),
        release_title: "Hacker".to_string(),
        slug: "ti_abcd".to_string(),
        updated_at: "2024-10-01T12:00:00+00:00".to_string(),
    }
}

#[test]
fn webhook_checkin_projects_its_answers() {
    let checkin = webhook_checkin(vec![
        question("What is your Discord username?", "jmshrv"),
        question("Pizza Choice!", "Pepperoni"),
    ]);
    assert_eq!(checkin.name(), "James Harvey");
    assert_eq!(checkin.reference(), "HKUW-1");
    assert_eq!(checkin.discord(), "jmshrv");
    assert_eq!(checkin.pizza(), "Pepperoni");
    assert_eq!(checkin.release_title(), "Hacker");
}

#[test]
fn webhook_checkin_without_answers_falls_back() {
    let checkin = webhook_checkin(vec![]);
    assert_eq!(checkin.discord(), "???");
    assert_eq!(checkin.pizza(), "???");
    assert_eq!(checkin.discord_answer(), None);
    assert_eq!(checkin.pizza_answer(), None);
}

#[test]
fn webhook_checkin_with_one_answer_falls_back_for_the_other() {
    let checkin = webhook_checkin(vec![question("Pizza Choice!", "Margherita")]);
    assert_eq!(checkin.discord(), "???");
    assert_eq!(checkin.pizza(), "Margherita");
    assert_eq!(checkin.pizza_answer(), Some("Margherita".to_string()));
}

#[test]
fn questions_match_exactly_and_with_case() {
    let checkin = webhook_checkin(vec![
        question("what is your discord username?", "lower"),
        question("What is your Discord username", "short"),
        question(" Pizza Choice!", "spaced"),
    ]);
    assert_eq!(checkin.discord(), "???");
    assert_eq!(checkin.pizza(), "???");
}

#[test]
fn the_first_matching_answer_wins() {
    let answers = vec![
        question("Other", "x"),
        question("Pizza Choice!", "Pepperoni"),
        question("Pizza Choice!", "Vegan"),
    ];
    assert_eq!(answer_to(&answers, "Pizza Choice!"), Some("Pepperoni".to_string()));
    assert_eq!(answer_to(&answers, "Other"), Some("x".to_string()));
    assert_eq!(answer_to(&answers, "Missing"), None);
    assert_eq!(answer_to(&Vec::new(), "Pizza Choice!"), None);
}

#[test]
fn admin_ticket_projects_its_responses() {
    let ticket = admin_ticket(&[
        ("what-is-your-discord-username", "ada#0001"),
        ("pizza-choice", "Margherita"),
        ("t-shirt", "M"),
    ]);
    assert_eq!(ticket.name(), "Ada Lovelace");
    assert_eq!(ticket.reference(), "ABCD-1");
    assert_eq!(ticket.discord(), "ada#0001");
    assert_eq!(ticket.pizza(), "Margherita");
    assert_eq!(ticket.release_title(), "Hacker");
}

#[test]
fn admin_ticket_without_responses_falls_back() {
    let ticket = admin_ticket(&[("Pizza-Choice", "Margherita")]);
    assert_eq!(ticket.discord(), "???");
    assert_eq!(ticket.pizza(), "???");
    assert_eq!(ticket.discord_answer(), None);
}

#[test]
fn responses_keep_the_last_answer_under_a_key() {
    let mut responses = Responses::new();
    assert_eq!(responses.len(), 0);
    responses.insert("pizza-choice".to_string(), "Pepperoni".to_string());
    responses.insert("pizza-choice".to_string(), "Vegan".to_string());
    assert_eq!(responses.len(), 1);
    assert_eq!(responses.get("pizza-choice"), Some(&"Vegan".to_string()));
    assert_eq!(responses.get("pizza"), None);
}

#[test]
fn ticket_joins_first_and_last_name() {
    let both = ticket(Some("Ada"), Some("Lovelace"), Some("ABCD-1"));
    assert_eq!(both.name(), "Ada Lovelace");
    assert_eq!(both.reference(), "ABCD-1");
    assert_eq!(both.discord(), "???");
    assert_eq!(both.pizza(), "???");
    assert_eq!(both.release_title(), "Hacker");
    assert_eq!(ticket(Some("Ada"), None, None).name(), "Ada");
    assert_eq!(ticket(None, Some("Lovelace"), None).name(), "Lovelace");
    assert_eq!(ticket(None, None, None).name(), "???");
    assert_eq!(ticket(None, None, None).reference(), "???");
}

#[test]
fn checkin_knows_its_reference_only() {
    let checkin = Checkin {
        created_at: "2024-10-26T09:00:00+00:00".to_string(),
        deleted_at: None,
        id: 9,
        ticket_id: 5,
        ticket_reference: Some("ABCD-1".to_string()),
        uuid: "0b8a4f0e-1b1a-4d4e-9c55-6d7e3f0a2b11".to_string(),
        updated_at: "2024-10-26T09:00:00+00:00".to_string(),
    };
    assert_eq!(checkin.name(), "???");
    assert_eq!(checkin.reference(), "ABCD-1");
    assert_eq!(checkin.discord(), "???");
    assert_eq!(checkin.pizza(), "???");
    assert_eq!(checkin.release_title(), "???");
    let bare = Checkin { ticket_reference: None, ..checkin };
    assert_eq!(bare.reference(), "???");
}

#[test]
fn project_reads_all_fields_once() {
    let checkin = webhook_checkin(vec![question("What is your Discord username?", "jmshrv")]);
    let badge = project(&checkin);
    assert_eq!(
        badge,
        PrintableProjection {
            name: "James Harvey".to_string(),
            reference: "HKUW-1".to_string(),
            discord: "jmshrv".to_string(),
            pizza: "???".to_string(),
            release_title: "Hacker".to_string(),
        }
    );
    assert_eq!(project(&badge), badge);
}

#[test]
fn lists_and_events_read_as_title_and_slug() {
    let list = CheckinList { slug: "chk_test".to_string(), title: "Front desk".to_string() };
    let event = Event { slug: "hacknotts-24".to_string(), title: "HackNotts 24".to_string() };
    assert_eq!(list.to_text(), "Front desk (chk_test)");
    assert_eq!(event.to_text(), "HackNotts 24 (hacknotts-24)");
}

#[test]
fn a_pushed_checkin_reads_as_lines() {
    let checkin = webhook_checkin(vec![
        question("What is your Discord username?", "jmshrv"),
        question("Pizza Choice!", "Pepperoni"),
    ]);
    let expected = "Checkin ID: 1\n\
Slug: ti_test\n\
Name: James Harvey\n\
Company: \n\
Release Title: Hacker\n\
Email: james@example.com\n\
Reference: HKUW-1\n\
Registration Reference: HKUW\n\
Checked In: true\n\
Checked In At: 2024-10-26T09:00:00+00:00\n\
Checkin List: Front desk (chk_test)\n\
Checkin UUID: 0b8a4f0e-1b1a-4d4e-9c55-6d7e3f0a2b11\n\
Custom: None\n\
Event: HackNotts 24 (hacknotts-24)\n\
Answers: [Question { question: \"What is your Discord username?\", response: \"jmshrv\" }, \
Question { question: \"Pizza Choice!\", response: \"Pepperoni\" }]\n";
    assert_eq!(checkin.to_text(), expected);
}

#[test]
fn a_pushed_checkin_shows_what_is_optional() {
    let mut checkin = webhook_checkin(vec![]);
    checkin.company_name = Some("HackSoc".to_string());
    checkin.custom = Some("{\"table\":4}".to_string());
    checkin.checked_in = false;
    let text = checkin.to_text();
    assert!(text.contains("Company: HackSoc\n"));
    assert!(text.contains("Custom: Some({\"table\":4})\n"));
    assert!(text.contains("Checked In: false\n"));
    assert!(text.ends_with("Answers: []\n"));
}

#[test]
fn answers_are_quoted_as_debug_quotes_them() {
    let answers = vec![
        question("Say \"hi\"", "line\nbreak"),
        question("tab\there", "back\\slash"),
        question("", "é"),
    ];
    let checkin = webhook_checkin(answers.clone());
    assert!(checkin.to_text().ends_with(&format!("Answers: {:?}\n", answers)));
    assert_eq!(entries_text(&answers), format!("{:?}", answers).trim_start_matches('[').trim_end_matches(']'));
    assert_eq!(entry_text("\"q\"", "\"r\""), "Question { question: \"q\", response: \"r\" }");
}

#[test]
fn missing_answers_are_named() {
    let both = webhook_checkin(vec![
        question("What is your Discord username?", "jmshrv"),
        question("Pizza Choice!", "Pepperoni"),
    ]);
    assert_eq!(both.missing_answers(), vec![]);
    let pizza_only = webhook_checkin(vec![question("Pizza Choice!", "Pepperoni")]);
    assert_eq!(pizza_only.missing_answers(), vec![Placeholder::Discord]);
    let discord_only = webhook_checkin(vec![question("What is your Discord username?", "jmshrv")]);
    assert_eq!(discord_only.missing_answers(), vec![Placeholder::Pizza]);
    assert_eq!(webhook_checkin(vec![]).missing_answers(), vec![Placeholder::Discord, Placeholder::Pizza]);
    assert_eq!(admin_ticket(&[]).missing_answers(), vec![Placeholder::Discord, Placeholder::Pizza]);
    assert_eq!(admin_ticket(&[("pizza-choice", "Vegan")]).missing_answers(), vec![Placeholder::Discord]);
    assert_eq!(
        admin_ticket(&[("pizza-choice", "Vegan"), ("what-is-your-discord-username", "ada")])
            .missing_answers(),
        vec![]
    );
}
