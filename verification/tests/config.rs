use rustylogs::config::{Config, LoadAction, LoadOutcome, LoadStage};

#[test]
fn default_config_is_empty() {
    let c = Config::default();
    assert!(c.discord.token.is_empty());
    assert!(c.openai.api_key.is_empty());
    assert!(c.openai.prompt.is_empty());
}

#[test]
fn readable_file_is_parsed() {
    let (s, a) = Config::load(LoadStage::Start, LoadOutcome::Begin);
    assert!(matches!(a, LoadAction::ReadFile { ref path } if path == "config.toml"));
    let (s, a) = Config::load(s, LoadOutcome::Read(Some("[discord]\ntoken = \"t\"".to_string())));
    assert!(matches!(a, LoadAction::Parse { ref text } if text == "[discord]\ntoken = \"t\""));
    let parsed = Config::default();
    let (s, a) = Config::load(s, LoadOutcome::Parsed(Err("missing field `openai`".to_string())));
    assert!(matches!(s, LoadStage::Over));
    assert!(matches!(a, LoadAction::Finish(Err(ref e)) if e == "missing field `openai`"));
    drop(parsed);
}

#[test]
fn parsed_config_is_returned() {
    let (s, _) = Config::load(LoadStage::Start, LoadOutcome::Begin);
    let (s, _) = Config::load(s, LoadOutcome::Read(Some(String::new())));
    let mut c = Config::default();
    c.openai.prompt = "Summarize".to_string();
    let (_, a) = Config::load(s, LoadOutcome::Parsed(Ok(c)));
    match a {
        LoadAction::Finish(Ok(c)) => assert_eq!(c.openai.prompt, "Summarize"),
        _ => panic!("expected the configuration"),
    }
}

#[test]
fn unreadable_file_is_replaced_by_default() {
    let (s, _) = Config::load(LoadStage::Start, LoadOutcome::Begin);
    let (s, a) = Config::load(s, LoadOutcome::Read(None));
    match a {
        LoadAction::Save { path, config } => {
            assert_eq!(path, "config.toml");
            assert!(config.discord.token.is_empty() && config.openai.prompt.is_empty());
        }
        _ => panic!("expected the save"),
    }
    let (_, a) = Config::load(s, LoadOutcome::Saved(Err("read-only".to_string())));
    assert!(matches!(a, LoadAction::Finish(Err(ref e)) if e == "read-only"));
    let (_, a) = Config::load(s, LoadOutcome::Saved(Ok(())));
    assert!(matches!(a, LoadAction::Finish(Ok(ref c)) if c.openai.api_key.is_empty()));
}
