use ironshield_client::{ClientConfig, SolveConfig};
use std::time::Duration;

#[test]
fn test_solve_config_single_threaded() {
    let config = ClientConfig {
        endpoint: "https://test.com".to_string(),
        api_base_url: "https://api.test.com".to_string(),
        timeout: Duration::from_secs(30),
        verbose: false,
        num_threads: Some(4),
    };

    let solve_config = SolveConfig::new(&config, false);
    assert_eq!(solve_config.thread_count, 1);
    assert!(!solve_config.use_multithreaded);
}

#[test]
fn test_solve_config_multithreaded() {
    let config = ClientConfig {
        endpoint: "https://test.com".to_string(),
        api_base_url: "https://api.test.com".to_string(),
        timeout: Duration::from_secs(30),
        verbose: false,
        num_threads: Some(4),
    };

    let solve_config = SolveConfig::new(&config, true);
    assert_eq!(solve_config.thread_count, 4);
    assert!(solve_config.use_multithreaded);
}

#[test]
fn test_solve_config_auto_thread_count() {
    let config = ClientConfig {
        endpoint: "https://test.com".to_string(),
        api_base_url: "https://api.test.com".to_string(),
        timeout: Duration::from_secs(30),
        verbose: false,
        num_threads: None,
    };

    let solve_config = SolveConfig::new(&config, true);
    assert!(solve_config.thread_count >= 1);
    assert!(solve_config.use_multithreaded);
}
