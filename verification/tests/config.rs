use matter_influx::config::{
    choose_config_file, config_filenames, default_cd_dir, default_matter_data_path,
    default_matter_fabric_id, default_paa_dir, ConfigError, InfluxDbConfig,
};
use std::path::PathBuf;

#[test]
fn defaults() {
    assert_eq!(default_matter_fabric_id(), 2000);
    assert_eq!(default_matter_data_path(), PathBuf::from("matter-influx/controller-state.bin"));
    assert_eq!(default_paa_dir(), PathBuf::from("/usr/share/matter-influx/paa-root-certs"));
    assert_eq!(default_cd_dir(), PathBuf::from("/usr/share/matter-influx/cd-certs"));
    let influxdb = InfluxDbConfig::default();
    assert_eq!(influxdb.url, "http://localhost:8086");
    assert_eq!(influxdb.username, None);
    assert_eq!(influxdb.password, None);
    assert_eq!(influxdb.database, "matter");
}

#[test]
fn config_file_search_order() {
    assert_eq!(config_filenames(), vec!["matter-influx.toml", "/etc/matter-influx.toml"]);
    assert_eq!(choose_config_file(&vec![false, false]), None);
    assert_eq!(choose_config_file(&vec![false, true]), Some(1));
    assert_eq!(choose_config_file(&vec![true, true]), Some(0));
    assert_eq!(choose_config_file(&vec![]), None);
}

#[test]
fn config_error_messages() {
    assert_eq!(
        ConfigError::NotFound.message(),
        format!("Unable to find config file in any of {:?}", ["matter-influx.toml", "/etc/matter-influx.toml"])
    );
    assert_eq!(ConfigError::InvalidUrl.message(), "Invalid InfluxDB URL");
    assert_eq!(
        ConfigError::HttpClientUnavailable.message(),
        "Unable to set up an HTTP client for InfluxDB"
    );
}

#[test]
fn credentials_need_both_user_and_password() {
    let mut config = InfluxDbConfig::default();
    assert_eq!(config.credentials(), None);
    config.username = Some("user".to_string());
    assert_eq!(config.credentials(), None);
    config.password = Some("secret".to_string());
    assert_eq!(
        config.credentials(),
        Some((&"user".to_string(), &"secret".to_string()))
    );
    config.username = None;
    assert_eq!(config.credentials(), None);
}

#[test]
fn make_client_needs_a_valid_url() {
    let config = InfluxDbConfig::default();
    let client = config.make_client().unwrap().into_client();
    assert_eq!(client.get_db(), "matter");
    let named = InfluxDbConfig { database: "sensors".to_string(), ..InfluxDbConfig::default() };
    assert_eq!(named.make_client().unwrap().into_client().get_db(), "sensors");
    let bad = InfluxDbConfig { url: "not a url".to_string(), ..InfluxDbConfig::default() };
    assert!(matches!(bad.make_client(), Err(ConfigError::InvalidUrl)));
}

#[test]
fn client_with_each_outcome_of_the_http_client() {
    let config = InfluxDbConfig { database: "sensors".to_string(), ..InfluxDbConfig::default() };
    assert!(matches!(config.client_with(None), Err(ConfigError::HttpClientUnavailable)));
    let http = influx_db_client::reqwest::Client::new();
    let client = config.client_with(Some(http)).ok().unwrap().into_client();
    assert_eq!(client.get_db(), "sensors");
    let bad = InfluxDbConfig { url: "::".to_string(), ..InfluxDbConfig::default() };
    assert!(matches!(bad.client_with(None), Err(ConfigError::InvalidUrl)));
    let http = influx_db_client::reqwest::Client::new();
    assert!(matches!(bad.client_with(Some(http)), Err(ConfigError::InvalidUrl)));
}
