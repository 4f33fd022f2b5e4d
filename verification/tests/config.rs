use chuckle::config::Config;

fn config(env: &str) -> Config {
    Config {
        port: 3000,
        env: env.to_string(),
        discord_token: String::new(),
        discord_application_id: String::new(),
        database_url: String::new(),
        github_webhook_secret: String::new(),
        github_access_token: String::new(),
    }
}

#[test]
fn is_dev_only_in_development() {
    assert!(config("development").is_dev());
    assert!(!config("production").is_dev());
    assert!(!config("Development").is_dev());
    assert!(!config("").is_dev());
}
