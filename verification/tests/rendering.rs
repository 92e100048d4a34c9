use std::path::PathBuf;

use hacknotts_checkin::checkin_output::PrintableProjection;
use hacknotts_checkin::typst_checkin_output::{
    escape_quotes, fill, render, substitute, Placeholder, RenderAction, RenderEvent, RenderState,
    RenderStep, StageOutcome, TypstCheckinOutput, TypstCheckinOutputError,
};

fn badge(name: &str, reference: &str, discord: &str, pizza: &str) -> PrintableProjection {
    PrintableProjection {
        name: name.to_string(),
        reference: reference.to_string(),
        discord: discord.to_string(),
        pizza: pizza.to_string(),
        release_title: "Hacker".to_string(),
    }
}

fn ada() -> PrintableProjection {
    badge("Ada Lovelace", "ABCD-1", "ada#0001", "Margherita")
}

fn exited(success: bool, stdout: &[u8], stderr: &[u8]) -> StageOutcome {
    StageOutcome::Exited {
        success,
        status: if success { "exit status: 0".to_string() } else { "exit status: 1".to_string() },
        stdout: stdout.to_vec(),
        stderr: stderr.to_vec(),
    }
}

fn compiling() -> RenderState {
    RenderState::Compiling { reference: "ABCD-1".to_string() }
}

fn printing() -> RenderState {
    RenderState::Printing { reference: "ABCD-1".to_string() }
}

fn finished_with(error: TypstCheckinOutputError, diagnostics: Option<Vec<u8>>) -> RenderStep {
    RenderStep {
        state: RenderState::Finished,
        action: RenderAction::Finish(Err(error)),
        diagnostics,
    }
}

#[test]
fn placeholders_have_names_and_tokens() {
    assert_eq!(Placeholder::Reference.name(), "reference");
    assert_eq!(Placeholder::Name.name(), "name");
    assert_eq!(Placeholder::Discord.name(), "discord");
    assert_eq!(Placeholder::Pizza.name(), "pizza");
    assert_eq!(Placeholder::Reference.token(), "{{reference}}");
    assert_eq!(Placeholder::Name.token(), "{{name}}");
    assert_eq!(Placeholder::Discord.token(), "{{discord}}");
    assert_eq!(Placeholder::Pizza.token(), "{{pizza}}");
}

#[test]
fn escape_quotes_puts_a_backslash_before_each_quote() {
    assert_eq!(escape_quotes("plain"), "plain");
    assert_eq!(escape_quotes("say \"hi\""), "say \\\"hi\\\"");
    assert_eq!(escape_quotes("\""), "\\\"");
    assert_eq!(escape_quotes("\\\""), "\\\\\"");
    assert_eq!(escape_quotes(""), "");
}

#[test]
fn substitute_fills_every_token_of_one_placeholder() {
    assert_eq!(substitute("{{name}} and {{name}}", Placeholder::Name, "Ada"), "Ada and Ada");
    assert_eq!(substitute("{{name}}", Placeholder::Pizza, "Ada"), "{{name}}");
    assert_eq!(substitute("#text(\"{{name}}\")", Placeholder::Name, "A\"B"), "#text(\"A\\\"B\")");
}

#[test]
fn rendering_fills_all_four_placeholders() {
    let template = "#badge(\"{{reference}}\", \"{{name}}\", \"{{discord}}\", \"{{pizza}}\")";
    let text = render(template, &ada()).unwrap();
    assert_eq!(text, "#badge(\"ABCD-1\", \"Ada Lovelace\", \"ada#0001\", \"Margherita\")");
    assert!(!text.contains("{{"));
    assert!(!text.contains("}}"));
    for value in ["Ada Lovelace", "ABCD-1", "ada#0001", "Margherita"] {
        assert!(text.contains(value));
    }
}

#[test]
fn rendering_escapes_quotes_in_values() {
    let template = "{{reference}}|{{name}}|{{discord}}|{{pizza}}";
    let text = render(template, &badge("Ada \"the first\" Lovelace", "ABCD-1", "\"", "x")).unwrap();
    assert_eq!(text, "ABCD-1|Ada \\\"the first\\\" Lovelace|\\\"|x");
}

#[test]
fn rendering_fills_repeated_placeholders() {
    let template = "{{name}} {{name}} {{reference}} {{discord}} {{pizza}} {{pizza}}";
    let text = render(template, &ada()).unwrap();
    assert_eq!(text, "Ada Lovelace Ada Lovelace ABCD-1 ada#0001 Margherita Margherita");
}

#[test]
fn rendering_names_the_first_placeholder_without_a_token() {
    let missing = |template: &str| match render(template, &ada()) {
        Err(TypstCheckinOutputError::VariableNotFound(name)) => name,
        other => panic!("expected a missing variable, got {:?}", other),
    };
    assert_eq!(missing(""), "reference");
    assert_eq!(missing("{{name}} {{discord}} {{pizza}}"), "reference");
    assert_eq!(missing("{{reference}} {{discord}} {{pizza}}"), "name");
    assert_eq!(missing("{{reference}} {{name}} {{pizza}}"), "discord");
    assert_eq!(missing("{{reference}} {{name}} {{discord}}"), "pizza");
    assert_eq!(missing("{{reference}} {{pizza}}"), "name");
}

#[test]
fn placeholders_are_filled_one_after_the_other() {
    let template = "{{reference}} {{name}} {{discord}}";
    let text = render(template, &badge("Ada", "{{pizza}}", "d", "Vegan")).unwrap();
    assert_eq!(text, "Vegan Ada d");
    let text = render("{{reference}} {{name}} {{discord}} {{pizza}}", &badge("{{reference}}", "R", "d", "p"))
        .unwrap();
    assert_eq!(text, "R {{reference}} d p");
}

#[test]
fn fill_does_not_insist_on_tokens() {
    assert_eq!(fill("Hello {{name}}", &ada()), "Hello Ada Lovelace");
    assert_eq!(fill("nothing to fill", &ada()), "nothing to fill");
    let template = "{{reference}}|{{name}}|{{discord}}|{{pizza}}";
    assert_eq!(fill(template, &ada()), render(template, &ada()).unwrap());
}

#[test]
fn typst_errors_read_as_messages() {
    assert_eq!(TypstCheckinOutputError::NoStdin.message(), "Failed to get stdin");
    assert_eq!(TypstCheckinOutputError::NoStdout.message(), "Failed to get stdout");
    assert_eq!(
        TypstCheckinOutputError::TemplateReadError("NotFound".to_string()).message(),
        "Failed to read the template: NotFound"
    );
    assert_eq!(
        TypstCheckinOutputError::CommandIOError("broken pipe".to_string()).message(),
        "Failed to read/write to a command: broken pipe"
    );
    assert_eq!(
        TypstCheckinOutputError::VariableNotFound("pizza".to_string()).message(),
        "Failed to find variable pizza in template"
    );
}

#[test]
fn output_keeps_its_template_path() {
    let output = TypstCheckinOutput::new(PathBuf::from("template/main.typ"));
    assert_eq!(output.template_path(), &PathBuf::from("template/main.typ"));
}

#[test]
fn a_job_starts_by_reading_the_template() {
    let output = TypstCheckinOutput::new(PathBuf::from("template/main.typ"));
    let step = output.checkin(&ada());
    assert_eq!(
        step,
        RenderStep {
            state: RenderState::ReadingTemplate { badge: ada() },
            action: RenderAction::ReadTemplate,
            diagnostics: None,
        }
    );
}

#[test]
fn a_job_compiles_then_prints_then_finishes() {
    let template = "{{reference}} {{name}} {{discord}} {{pizza}}".to_string();
    let step = RenderState::ReadingTemplate { badge: ada() }
        .advance(RenderEvent::TemplateRead(Ok(template)));
    assert_eq!(step.state, compiling());
    assert_eq!(
        step.action,
        RenderAction::Compile { input: "ABCD-1 Ada Lovelace ada#0001 Margherita".to_string() }
    );
    assert_eq!(step.diagnostics, None);

    let step = step.state.advance(RenderEvent::StageFinished(exited(true, b"%PDF", b"")));
    assert_eq!(step.state, printing());
    assert_eq!(step.action, RenderAction::Print { document: b"%PDF".to_vec() });
    assert_eq!(step.diagnostics, None);

    let step = step.state.advance(RenderEvent::StageFinished(exited(true, b"request id is 1", b"")));
    assert_eq!(step.state, RenderState::Finished);
    assert_eq!(step.action, RenderAction::Finish(Ok("ABCD-1".to_string())));
    assert_eq!(step.diagnostics, None);
}

#[test]
fn a_job_ends_when_the_template_cannot_be_read() {
    let step = RenderState::ReadingTemplate { badge: ada() }
        .advance(RenderEvent::TemplateRead(Err("No such file".to_string())));
    assert_eq!(
        step,
        finished_with(TypstCheckinOutputError::TemplateReadError("No such file".to_string()), None)
    );
}

#[test]
fn a_job_ends_when_a_placeholder_has_no_token() {
    let step = RenderState::ReadingTemplate { badge: ada() }
        .advance(RenderEvent::TemplateRead(Ok("{{reference}} {{name}} {{discord}}".to_string())));
    assert_eq!(
        step,
        finished_with(TypstCheckinOutputError::VariableNotFound("pizza".to_string()), None)
    );
}

#[test]
fn diagnostics_are_passed_on_but_fail_nothing() {
    let step = compiling().advance(RenderEvent::StageFinished(exited(true, b"%PDF", b"warning: font")));
    assert_eq!(step.state, printing());
    assert_eq!(step.action, RenderAction::Print { document: b"%PDF".to_vec() });
    assert_eq!(step.diagnostics, Some(b"warning: font".to_vec()));

    let step = printing().advance(RenderEvent::StageFinished(exited(true, b"", b"lp: odd")));
    assert_eq!(step.action, RenderAction::Finish(Ok("ABCD-1".to_string())));
    assert_eq!(step.diagnostics, Some(b"lp: odd".to_vec()));
}

#[test]
fn a_compiler_that_ends_abnormally_fails_the_job() {
    let step = compiling().advance(RenderEvent::StageFinished(exited(false, b"", b"error: unknown variable")));
    assert_eq!(
        step,
        finished_with(
            TypstCheckinOutputError::CommandIOError("exit status: 1".to_string()),
            Some(b"error: unknown variable".to_vec())
        )
    );
}

#[test]
fn a_spooler_that_has_run_counts_as_printed() {
    let step = printing().advance(RenderEvent::StageFinished(exited(false, b"", b"")));
    assert_eq!(step.state, RenderState::Finished);
    assert_eq!(step.action, RenderAction::Finish(Ok("ABCD-1".to_string())));
}

#[test]
fn compiler_failures_map_to_errors() {
    let run = |outcome: StageOutcome| compiling().advance(RenderEvent::StageFinished(outcome));
    assert_eq!(
        run(StageOutcome::SpawnFailed("not installed".to_string())),
        finished_with(TypstCheckinOutputError::CommandIOError("not installed".to_string()), None)
    );
    assert_eq!(run(StageOutcome::NoStdin), finished_with(TypstCheckinOutputError::NoStdin, None));
    assert_eq!(
        run(StageOutcome::WriteFailed("broken pipe".to_string())),
        finished_with(TypstCheckinOutputError::NoStdin, None)
    );
    assert_eq!(
        run(StageOutcome::WaitFailed("interrupted".to_string())),
        finished_with(TypstCheckinOutputError::CommandIOError("interrupted".to_string()), None)
    );
}

#[test]
fn spooler_failures_map_to_errors() {
    let run = |outcome: StageOutcome| printing().advance(RenderEvent::StageFinished(outcome));
    assert_eq!(
        run(StageOutcome::SpawnFailed("not installed".to_string())),
        finished_with(TypstCheckinOutputError::CommandIOError("not installed".to_string()), None)
    );
    assert_eq!(run(StageOutcome::NoStdin), finished_with(TypstCheckinOutputError::NoStdin, None));
    assert_eq!(
        run(StageOutcome::WriteFailed("broken pipe".to_string())),
        finished_with(TypstCheckinOutputError::CommandIOError("broken pipe".to_string()), None)
    );
    assert_eq!(
        run(StageOutcome::WaitFailed("interrupted".to_string())),
        finished_with(TypstCheckinOutputError::CommandIOError("interrupted".to_string()), None)
    );
}

#[test]
fn a_job_drops_events_it_does_not_await() {
    let dropped = |state: RenderState| RenderStep {
        state,
        action: RenderAction::Nothing,
        diagnostics: None,
    };
    assert_eq!(
        RenderState::ReadingTemplate { badge: ada() }
            .advance(RenderEvent::StageFinished(exited(true, b"", b"noise"))),
        dropped(RenderState::ReadingTemplate { badge: ada() })
    );
    assert_eq!(
        compiling().advance(RenderEvent::TemplateRead(Ok("{{name}}".to_string()))),
        dropped(compiling())
    );
    assert_eq!(
        printing().advance(RenderEvent::TemplateRead(Err("late".to_string()))),
        dropped(printing())
    );
    assert_eq!(
        RenderState::Finished.advance(RenderEvent::StageFinished(exited(true, b"", b""))),
        dropped(RenderState::Finished)
    );
}
