//! The command palette and the model filter.
use codypendent::number::Double;
use codypendent::tui::palette::{commands, filtered, filtered_len, PaletteCommand};
use codypendent::tui::protocol::ModelId;
use codypendent::tui::state::{filter_models, match_rows, ModelCard, ModelLocationLabel};

#[test]
fn empty_query_matches_every_command() {
    assert_eq!(filtered("").len(), commands().len());
}

#[test]
fn filters_case_insensitively_on_title_and_description() {
    let docs = filtered("docs");
    assert_eq!(docs.len(), 1);
    assert_eq!(docs[0].command, PaletteCommand::Docs);
    let prov = filtered("PROVENANCE");
    assert_eq!(prov.len(), 1);
    assert_eq!(prov[0].command, PaletteCommand::Memory);
}

#[test]
fn a_nonsense_query_matches_nothing() {
    assert!(filtered("zzzzz").is_empty());
}

#[test]
fn every_command_has_a_nonempty_title_and_key() {
    for entry in commands() {
        assert!(!entry.title.is_empty());
        assert!(!entry.key.is_empty());
    }
}

#[test]
fn white_space_around_a_query_does_not_count() {
    assert_eq!(filtered("  \t").len(), 11);
    assert_eq!(filtered_len(" docs "), 1);
}

#[test]
fn a_key_finds_its_command() {
    let found = filtered("f2");
    assert_eq!(found.len(), 1);
    assert_eq!(found[0].command, PaletteCommand::ToggleLayout);
    let question = filtered("?");
    assert_eq!(question.len(), 1);
    assert_eq!(question[0].command, PaletteCommand::Help);
}

#[test]
fn commands_stay_in_table_order() {
    let found = filtered("run");
    let order: Vec<PaletteCommand> = found.iter().map(|e| e.command).collect();
    assert_eq!(
        order,
        [
            PaletteCommand::NewRun,
            PaletteCommand::Steer,
            PaletteCommand::PauseResume,
            PaletteCommand::Cancel,
            PaletteCommand::Detach,
        ]
    );
}

fn model(id: &str, provider: &str) -> ModelCard {
    ModelCard {
        id: ModelId(id.to_owned()),
        provider: provider.to_owned(),
        location: Some(ModelLocationLabel::Local),
        cost_per_1k_usd: Some(Double {
            bits: 0.25f64.to_bits(),
        }),
        context_tokens: Some(8192),
    }
}

#[test]
fn models_are_found_by_name_or_provider() {
    let models = vec![
        model("GPT-mini", "openai-compatible"),
        model("local-llama", "OpenAI-compatible"),
        model("other", "elsewhere"),
    ];
    assert_eq!(filter_models(&models, ""), [0, 1, 2]);
    assert_eq!(filter_models(&models, "gpt"), [0]);
    assert_eq!(filter_models(&models, " OPENAI "), [0, 1]);
    assert!(filter_models(&models, "nothing").is_empty());
}

#[test]
fn rows_match_on_any_field() {
    let rows = vec![
        vec!["alpha".to_owned(), "one".to_owned()],
        vec!["beta".to_owned(), "two".to_owned()],
        vec![],
    ];
    assert_eq!(match_rows(&rows, &"a".to_owned()), [0, 1]);
    assert_eq!(match_rows(&rows, &"one".to_owned()), [0]);
    assert_eq!(match_rows(&rows, &String::new()), [0, 1, 2]);
}
