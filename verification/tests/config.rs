use ogonek_gh::github::{github_config, ConfigError};

fn some(s: &str) -> Option<String> {
    Some(s.to_string())
}

#[test]
fn config_from_all_three_values() {
    let c = github_config(some("tok"), some("me"), some("repo")).unwrap();
    assert_eq!((c.token.as_str(), c.owner.as_str(), c.repo.as_str()), ("tok", "me", "repo"));
}

#[test]
fn config_reports_the_first_missing_value() {
    assert_eq!(github_config(None, None, None).err(), Some(ConfigError::MissingToken));
    assert_eq!(github_config(some("t"), None, None).err(), Some(ConfigError::MissingOwner));
    assert_eq!(github_config(some("t"), some("o"), None).err(), Some(ConfigError::MissingRepo));
}

#[test]
fn config_error_texts() {
    assert_eq!(ConfigError::MissingToken.message(), "GITHUB_PAT not set");
    assert_eq!(ConfigError::MissingOwner.message(), "GITHUB_OWNER not set");
    assert_eq!(ConfigError::MissingRepo.message(), "GITHUB_REPO not set");
}
