use ironshield_client::{CliArgs, ClientConfig, Commands, ConfigManager};
use std::time::Duration;

#[test]
fn subcommand_config_path_wins_over_global() {
    let args = CliArgs {
        verbose: false,
        config_path: Some("global.toml".to_string()),
        command: Commands::Solve {
            endpoint: "https://example.com".to_string(),
            single_threaded: true,
            verbose: true,
            config_path: Some("local.toml".to_string()),
        },
    };
    assert_eq!(args.config_file(), Some("local.toml".to_string()));
    assert_eq!(args.verbose_override(), Some(true));
    assert!(!args.use_multithreaded());
}

#[test]
fn global_flags_apply_without_subcommand_flags() {
    let args = CliArgs {
        verbose: true,
        config_path: Some("global.toml".to_string()),
        command: Commands::Fetch { endpoint: "https://example.com".to_string(), verbose: false, config_path: None },
    };
    assert_eq!(args.config_file(), Some("global.toml".to_string()));
    assert_eq!(args.verbose_override(), Some(true));
    let quiet = CliArgs {
        verbose: false,
        config_path: None,
        command: Commands::Validate {
            endpoint: "https://example.com".to_string(),
            single_threaded: false,
            verbose: false,
            config_path: None,
        },
    };
    assert_eq!(quiet.config_file(), None);
    assert_eq!(quiet.verbose_override(), Some(false));
    assert!(quiet.use_multithreaded());
}

#[test]
fn verbose_override_replaces_only_verbose() {
    let config = ClientConfig {
        endpoint: "https://test.com".to_string(),
        api_base_url: "https://api.test.com".to_string(),
        timeout: Duration::from_secs(30),
        verbose: false,
        num_threads: Some(2),
    };
    let loud = ConfigManager::apply_overrides(config, Some(true));
    assert!(loud.verbose);
    assert_eq!(loud.num_threads, Some(2));
    assert_eq!(loud.api_base_url, "https://api.test.com");
    let same = ConfigManager::apply_overrides(loud, None);
    assert!(same.verbose);
}
