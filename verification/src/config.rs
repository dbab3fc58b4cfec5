//! The bot's configuration, kept in `config.toml`, and the run that loads it: a file that
//! is there is parsed; when it cannot be read, the default configuration is written and
//! used.

use vstd::prelude::*;

verus! {

/// The Discord section of the configuration.
pub struct Discord {
    pub token: String,
}

/// The OpenAI section of the configuration.
pub struct OpenAI {
    pub api_key: String,
    pub prompt: String,
}

/// The configuration file's content.
pub struct Config {
    pub discord: Discord,
    pub openai: OpenAI,
}

/// The texts of a configuration.
pub struct ConfigView {
    pub token: Seq<char>,
    pub api_key: Seq<char>,
    pub prompt: Seq<char>,
}

impl View for Config {
    type V = ConfigView;

    open spec fn view(&self) -> ConfigView {
        ConfigView {
            token: self.discord.token@,
            api_key: self.openai.api_key@,
            prompt: self.openai.prompt@,
        }
    }
}

/// The default configuration: every text empty.
pub open spec fn default_config() -> ConfigView {
    ConfigView {
        token: Seq::<char>::empty(),
        api_key: Seq::<char>::empty(),
        prompt: Seq::<char>::empty(),
    }
}

impl Default for Config {
    fn default() -> (config: Self)
        ensures
            config@ == default_config(),
    {
        Config {
            discord: Discord { token: String::new() },
            openai: OpenAI { api_key: String::new(), prompt: String::new() },
        }
    }
}

/// The file the configuration is kept in.
pub open spec fn config_file_name() -> Seq<char> {
    "config.toml"@
}

/// Where a run of `Config::load` stands: the action whose outcome it awaits.
#[derive(Clone, Copy)]
pub enum LoadStage {
    Start,
    Read,
    Parsed,
    Saved,
    Over,
}

/// The outside work the loading run asks for next.
pub enum LoadAction {
    /// Read the whole file at `path` as text.
    ReadFile { path: String },
    /// Parse `text` as the TOML form of a configuration.
    Parse { text: String },
    /// Write `config` in pretty TOML to the file at `path`.
    Save { path: String, config: Config },
    /// The run is over, with the configuration or the error's text.
    Finish(Result<Config, String>),
}

/// `LoadAction` with its texts as sequences of characters.
pub enum LoadActionView {
    ReadFile { path: Seq<char> },
    Parse { text: Seq<char> },
    Save { path: Seq<char>, config: ConfigView },
    Finish(Result<ConfigView, Seq<char>>),
}

impl View for LoadAction {
    type V = LoadActionView;

    open spec fn view(&self) -> LoadActionView {
        match self {
            LoadAction::ReadFile { path } => LoadActionView::ReadFile { path: path@ },
            LoadAction::Parse { text } => LoadActionView::Parse { text: text@ },
            LoadAction::Save { path, config } => LoadActionView::Save { path: path@, config: config@ },
            LoadAction::Finish(Ok(c)) => LoadActionView::Finish(Ok(c@)),
            LoadAction::Finish(Err(e)) => LoadActionView::Finish(Err(e@)),
        }
    }
}

/// What the last action of the loading run gave back.
pub enum LoadOutcome {
    Begin,
    /// The file's text, or `None` when it could not be read.
    Read(Option<String>),
    /// The parsed configuration, or the parse error's text.
    Parsed(Result<Config, String>),
    /// The default configuration was written, or the error's text.
    Saved(Result<(), String>),
}

pub open spec fn load_rank(stage: LoadStage) -> nat {
    match stage {
        LoadStage::Start => 3,
        LoadStage::Read => 2,
        LoadStage::Parsed => 1,
        LoadStage::Saved => 1,
        LoadStage::Over => 0,
    }
}

pub open spec fn load_awaits(stage: LoadStage, outcome: LoadOutcome) -> bool {
    match stage {
        LoadStage::Start => outcome is Begin,
        LoadStage::Read => outcome is Read,
        LoadStage::Parsed => outcome is Parsed,
        LoadStage::Saved => outcome is Saved,
        LoadStage::Over => false,
    }
}

/// One step of the loading run.
pub open spec fn load_next(stage: LoadStage, outcome: LoadOutcome) -> (LoadStage, LoadActionView) {
    let over = LoadStage::Over;
    match stage {
        LoadStage::Start => (LoadStage::Read, LoadActionView::ReadFile { path: config_file_name() }),
        LoadStage::Read => match outcome {
            LoadOutcome::Read(Some(text)) => (LoadStage::Parsed, LoadActionView::Parse { text: text@ }),
            _ => (
                LoadStage::Saved,
                LoadActionView::Save { path: config_file_name(), config: default_config() },
            ),
        },
        LoadStage::Parsed => match outcome {
            LoadOutcome::Parsed(Ok(config)) => (over, LoadActionView::Finish(Ok(config@))),
            LoadOutcome::Parsed(Err(e)) => (over, LoadActionView::Finish(Err(e@))),
            _ => (over, LoadActionView::Finish(Ok(default_config()))),
        },
        _ => match outcome {
            LoadOutcome::Saved(Err(e)) => (over, LoadActionView::Finish(Err(e@))),
            _ => (over, LoadActionView::Finish(Ok(default_config()))),
        },
    }
}

impl Config {
    /// Loads the configuration: `stage` is where the run stands and `outcome` what the
    /// action it asked for last gave back (`Begin` on the first call, with stage `Start`).
    pub fn load(stage: LoadStage, outcome: LoadOutcome) -> (res: (LoadStage, LoadAction))
        requires
            load_awaits(stage, outcome),
        ensures
            (res.0, res.1@) == load_next(stage, outcome),
            res.1 is Finish <==> res.0 is Over,
            load_rank(res.0) < load_rank(stage),
    {
        match stage {
            LoadStage::Start => (
                LoadStage::Read,
                LoadAction::ReadFile { path: String::from_str("config.toml") },
            ),
            LoadStage::Read => match outcome {
                LoadOutcome::Read(Some(text)) => (LoadStage::Parsed, LoadAction::Parse { text }),
                _ => (
                    LoadStage::Saved,
                    LoadAction::Save {
                        path: String::from_str("config.toml"),
                        config: Config::default(),
                    },
                ),
            },
            LoadStage::Parsed => match outcome {
                LoadOutcome::Parsed(Ok(config)) => (LoadStage::Over, LoadAction::Finish(Ok(config))),
                LoadOutcome::Parsed(Err(e)) => (LoadStage::Over, LoadAction::Finish(Err(e))),
                _ => (LoadStage::Over, LoadAction::Finish(Ok(Config::default()))),
            },
            _ => match outcome {
                LoadOutcome::Saved(Err(e)) => (LoadStage::Over, LoadAction::Finish(Err(e))),
                _ => (LoadStage::Over, LoadAction::Finish(Ok(Config::default()))),
            },
        }
    }
}

/// A configuration file that can be read is parsed, and what the parse gives back, the
/// configuration or the error, is the result; nothing is written.
pub proof fn readable_file_is_parsed(text: String, parsed: Result<Config, String>)
    ensures
        ({
            let s1 = load_next(LoadStage::Start, LoadOutcome::Begin);
            let s2 = load_next(s1.0, LoadOutcome::Read(Some(text)));
            let s3 = load_next(s2.0, LoadOutcome::Parsed(parsed));
            &&& s1.1 == LoadActionView::ReadFile { path: config_file_name() }
            &&& s2.1 == LoadActionView::Parse { text: text@ }
            &&& s3.1 == LoadActionView::Finish(
                match parsed {
                    Ok(c) => Ok(c@),
                    Err(e) => Err(e@),
                },
            )
        }),
{
}

/// When the configuration file cannot be read, the default configuration is written to
/// it, and it is the result when the write goes through; the write's error otherwise.
pub proof fn unreadable_file_is_replaced_by_default(written: Result<(), String>)
    ensures
        ({
            let s1 = load_next(LoadStage::Start, LoadOutcome::Begin);
            let s2 = load_next(s1.0, LoadOutcome::Read(None));
            let s3 = load_next(s2.0, LoadOutcome::Saved(written));
            &&& s2.1 == LoadActionView::Save { path: config_file_name(), config: default_config() }
            &&& s3.1 == LoadActionView::Finish(
                match written {
                    Ok(()) => Ok(default_config()),
                    Err(e) => Err(e@),
                },
            )
        }),
{
}

} // verus!
