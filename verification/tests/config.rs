use csu::config::{all_config, config_of, get_all_config};
use csu::error::AppError;

#[test]
fn test_get_all_config() {
    let config_content = r#"
            [tencent_cloud]
            secret_id = "testid"
            secret_key = "testkey"
        "#;

    let config = get_all_config(config_content).unwrap();

    assert_eq!(config.tencent_cloud.secret_id, "testid");
    assert_eq!(config.tencent_cloud.secret_key, "testkey");
}

#[test]
fn config_that_is_no_toml_is_a_config_error() {
    assert!(matches!(get_all_config("[tencent_cloud"), Err(AppError::ConfigError(_))));
}

#[test]
fn config_without_a_secret_is_a_config_error() {
    let text = "[tencent_cloud]\nsecret_id = \"testid\"\n";
    assert!(matches!(get_all_config(text), Err(AppError::ConfigError(_))));
    let text = "[tencent_cloud]\nsecret_key = \"testkey\"\n";
    assert!(matches!(get_all_config(text), Err(AppError::ConfigError(_))));
    assert!(matches!(get_all_config(""), Err(AppError::ConfigError(_))));
}

#[test]
fn all_config_reports_the_first_missing_part() {
    let config = all_config(Ok("id".to_string()), Ok("key".to_string())).unwrap();
    assert_eq!(config.tencent_cloud.secret_id, "id");
    assert_eq!(config.tencent_cloud.secret_key, "key");
    assert_eq!(
        all_config(Err("no id".to_string()), Err("no key".to_string())),
        Err(AppError::ConfigError("no id".to_string()))
    );
    assert_eq!(
        all_config(Ok("id".to_string()), Err("no key".to_string())),
        Err(AppError::ConfigError("no key".to_string()))
    );
}

fn settings(text: &str) -> config::Config {
    config::Config::builder()
        .add_source(config::File::from_str(text, config::FileFormat::Toml))
        .build()
        .unwrap()
}

#[test]
fn config_is_taken_out_of_settings() {
    let read = settings("[tencent_cloud]\nsecret_id = \"testid\"\nsecret_key = \"testkey\"\n");
    let config = config_of(&read).unwrap();
    assert_eq!(config.tencent_cloud.secret_id, "testid");
    assert_eq!(config.tencent_cloud.secret_key, "testkey");
    assert_eq!(config.clone(), config);
}

#[test]
fn settings_without_a_secret_are_a_config_error() {
    let read = settings("[tencent_cloud]\nsecret_id = \"testid\"\n");
    assert!(matches!(config_of(&read), Err(AppError::ConfigError(_))));
    let read = settings("[other]\nsecret_id = \"testid\"\nsecret_key = \"testkey\"\n");
    assert!(matches!(config_of(&read), Err(AppError::ConfigError(_))));
    let read = settings("");
    assert!(matches!(config_of(&read), Err(AppError::ConfigError(_))));
}
