use log_forwarder::log_config::{select_sink, AXIOM_TAG, ConfigError, LogServiceConfig, SinkChoice};

fn cfg(service: &str, url: Option<&str>, dataset: Option<&str>) -> LogServiceConfig {
    LogServiceConfig {
        service: service.to_string(),
        ingestion_url: url.map(String::from),
        api_key: "key".to_string(),
        dataset: dataset.map(String::from),
    }
}

#[test]
fn dataset_sink_needs_a_dataset() {
    match select_sink(&cfg(AXIOM_TAG, None, Some("logs"))) {
        Ok(SinkChoice::Axiom { api_key, dataset }) => {
            assert_eq!(api_key, "key");
            assert_eq!(dataset, "logs");
        }
        _ => panic!("expected the Axiom sink"),
    }
    assert!(matches!(select_sink(&cfg(AXIOM_TAG, Some("u"), None)), Err(ConfigError::MissingDataset)));
}

#[test]
fn datadog_and_betterstack_need_an_ingestion_url() {
    match select_sink(&cfg("datadog", Some("https://dd"), None)) {
        Ok(SinkChoice::Datadog { ingestion_url, .. }) => assert_eq!(ingestion_url, "https://dd"),
        _ => panic!("expected the Datadog sink"),
    }
    match select_sink(&cfg("betterstack", Some("https://bs"), None)) {
        Ok(SinkChoice::BetterStack { ingestion_url, .. }) => assert_eq!(ingestion_url, "https://bs"),
        _ => panic!("expected the Better Stack sink"),
    }
    assert!(matches!(select_sink(&cfg("datadog", None, None)), Err(ConfigError::MissingIngestionUrl)));
    assert!(matches!(select_sink(&cfg("betterstack", None, Some("d"))), Err(ConfigError::MissingIngestionUrl)));
}

#[test]
fn unknown_service_is_refused() {
    assert!(matches!(select_sink(&cfg("splunk", Some("u"), Some("d"))), Err(ConfigError::UnsupportedService)));
    assert!(matches!(select_sink(&cfg("Datadog", Some("u"), None)), Err(ConfigError::UnsupportedService)));
    assert_eq!(ConfigError::UnsupportedService.message(), "Unsupported log service");
}
