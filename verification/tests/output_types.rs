//! Output kinds and requested formats.
use granary::output::types::{select_rendering, CliOutputFormat, OutputType};

#[test]
fn output_type_to_cli_format() {
    assert!(matches!(CliOutputFormat::from(OutputType::Text), CliOutputFormat::Table));
    assert!(matches!(CliOutputFormat::from(OutputType::Prompt), CliOutputFormat::Prompt));
    assert!(matches!(CliOutputFormat::from(OutputType::Json), CliOutputFormat::Json));
}

#[test]
fn cli_format_to_output_type() {
    assert_eq!(OutputType::from(CliOutputFormat::Table), OutputType::Text);
    assert_eq!(OutputType::from(CliOutputFormat::Json), OutputType::Json);
    assert_eq!(OutputType::from(CliOutputFormat::Prompt), OutputType::Prompt);
    assert_eq!(OutputType::from(CliOutputFormat::Md), OutputType::Text);
    assert_eq!(OutputType::from(CliOutputFormat::Yaml), OutputType::Json);
}

#[test]
fn output_type_default_is_text() {
    assert_eq!(OutputType::default(), OutputType::Text);
}

#[test]
fn requested_formats_select_what_is_rendered() {
    assert_eq!(select_rendering(None, OutputType::Text), OutputType::Text);
    assert_eq!(select_rendering(None, OutputType::Prompt), OutputType::Prompt);
    assert_eq!(select_rendering(Some(CliOutputFormat::Json), OutputType::Text), OutputType::Json);
    assert_eq!(select_rendering(Some(CliOutputFormat::Prompt), OutputType::Text), OutputType::Prompt);
    assert_eq!(select_rendering(Some(CliOutputFormat::Table), OutputType::Prompt), OutputType::Text);
    assert_eq!(select_rendering(Some(CliOutputFormat::Md), OutputType::Json), OutputType::Text);
    assert_eq!(select_rendering(Some(CliOutputFormat::Yaml), OutputType::Json), OutputType::Text);
}
