//! The application's configuration.
use vstd::prelude::*;

verus! {

/// Application Config
#[derive(Debug, Clone)]
pub struct Config {
    /// The port to run the server on
    pub port: u16,
    /// The environment
    pub env: String,
    /// The Discord token
    pub discord_token: String,
    /// The Discord ID
    pub discord_application_id: String,
    /// The database URL
    pub database_url: String,
    /// The GitHub webhook secret
    pub github_webhook_secret: String,
    /// The GitHub token
    pub github_access_token: String,
}

impl Config {
    /// Whether the application runs in the `development` environment.
    pub fn is_dev(&self) -> (res: bool)
        ensures
            res == (self.env@ == "development"@),
    {
        crate::text::str_eq(self.env.as_str(), "development")
    }
}

} // verus!
