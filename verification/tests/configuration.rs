use long_duration_jwt::config::{
    Cli, DEFAULT_ACCESS_TOKEN_VARIABLE, DEFAULT_OUTPUT, DEFAULT_REFRESH_TOKEN_VARIABLE,
    DEFAULT_VALUE, EXCHANGE_PATH,
};
use long_duration_jwt::error::{
    missing_credential_message, ExchangeError, EXIT_FAILURE, EXIT_SUCCESS,
};
use long_duration_jwt::output::{resolve_output_path, DEFAULT_FILE_NAME};
use long_duration_jwt::unit::TimeUnit;

fn sample() -> Cli {
    Cli::new(
        "http://127.0.0.1:1234".to_string(),
        2,
        TimeUnit::Days,
        "OPERATOR_ACCESS_TOKEN".to_string(),
        "OPERATOR_REFRESH_TOKEN".to_string(),
        "test_output.json".to_string(),
    )
}

#[test]
fn unit_labels_are_upper_case_names() {
    assert_eq!(TimeUnit::Seconds.wire_label(), "SECONDS");
    assert_eq!(TimeUnit::Minutes.wire_label(), "MINUTES");
    assert_eq!(TimeUnit::Hours.wire_label(), "HOURS");
    assert_eq!(TimeUnit::Days.wire_label(), "DAYS");
}

#[test]
fn unit_labels_differ_pairwise() {
    let units = vec![TimeUnit::Seconds, TimeUnit::Minutes, TimeUnit::Hours, TimeUnit::Days];
    for a in units.iter() {
        for b in units.iter() {
            assert_eq!(a.wire_label() == b.wire_label(), a == b);
        }
    }
}

#[test]
fn default_unit_is_hours() {
    assert_eq!(TimeUnit::default(), TimeUnit::Hours);
}

#[test]
fn constants_have_their_documented_values() {
    assert_eq!(DEFAULT_VALUE, 1);
    assert_eq!(DEFAULT_ACCESS_TOKEN_VARIABLE, "OPERATOR_ACCESS_TOKEN");
    assert_eq!(DEFAULT_REFRESH_TOKEN_VARIABLE, "OPERATOR_REFRESH_TOKEN");
    assert_eq!(DEFAULT_OUTPUT, "long_duration_jwt.json");
    assert_eq!(DEFAULT_FILE_NAME, "long_duration_jwt.json");
    assert_eq!(EXCHANGE_PATH, "/v1/create-new-jwt");
    assert_eq!(EXIT_SUCCESS, 0);
    assert_eq!(EXIT_FAILURE, 1);
}

#[test]
fn defaults_fill_every_option_but_the_url() {
    let cli = Cli::with_defaults("https://auth.example".to_string());
    assert_eq!(cli.get_base_url(), "https://auth.example");
    assert_eq!(cli.get_value(), 1);
    assert_eq!(cli.get_time_unit(), TimeUnit::Hours);
    assert_eq!(cli.get_unit(), "HOURS");
    assert_eq!(cli.get_access_token_env_var_name(), "OPERATOR_ACCESS_TOKEN");
    assert_eq!(cli.get_refresh_token_env_var_name(), "OPERATOR_REFRESH_TOKEN");
    assert_eq!(cli.get_output_file(), "long_duration_jwt.json");
}

#[test]
fn getters_return_what_was_given() {
    let cli = Cli::new(
        "http://host".to_string(),
        -7,
        TimeUnit::Seconds,
        "A_VAR".to_string(),
        "R_VAR".to_string(),
        "out/dir".to_string(),
    );
    assert_eq!(cli.get_base_url(), "http://host");
    assert_eq!(cli.get_value(), -7);
    assert_eq!(cli.get_time_unit(), TimeUnit::Seconds);
    assert_eq!(cli.get_unit(), "SECONDS");
    assert_eq!(cli.get_access_token_env_var_name(), "A_VAR");
    assert_eq!(cli.get_refresh_token_env_var_name(), "R_VAR");
    assert_eq!(cli.get_output_file(), "out/dir");
}

#[test]
fn value_keeps_the_extremes() {
    let low = Cli::new(
        String::new(),
        i64::MIN,
        TimeUnit::Minutes,
        String::new(),
        String::new(),
        String::new(),
    );
    assert_eq!(low.get_value(), i64::MIN);
    assert_eq!(low.get_unit(), "MINUTES");
    let high = Cli::new(
        String::new(),
        i64::MAX,
        TimeUnit::Days,
        String::new(),
        String::new(),
        String::new(),
    );
    assert_eq!(high.get_value(), i64::MAX);
}

#[test]
fn url_is_base_and_path() {
    assert_eq!(sample().get_url(), "http://127.0.0.1:1234/v1/create-new-jwt");
}

#[test]
fn url_keeps_a_trailing_slash_of_the_base() {
    let cli = Cli::with_defaults("http://host/".to_string());
    assert_eq!(cli.get_url(), "http://host//v1/create-new-jwt");
}

#[test]
fn url_of_an_empty_base_is_the_path() {
    let cli = Cli::with_defaults(String::new());
    assert_eq!(cli.get_url(), "/v1/create-new-jwt");
}

#[test]
fn access_token_is_the_value_found() {
    assert_eq!(
        sample().get_access_token(Some("test_access_token".to_string())),
        Ok("test_access_token".to_string())
    );
    assert_eq!(sample().get_access_token(Some(String::new())), Ok(String::new()));
}

#[test]
fn access_token_missing_names_its_variable() {
    assert_eq!(
        sample().get_access_token(None),
        Err(ExchangeError::MissingCredential { variable: "OPERATOR_ACCESS_TOKEN".to_string() })
    );
}

#[test]
fn refresh_token_is_the_value_found() {
    assert_eq!(
        sample().get_refresh_token(Some("test_refresh_token".to_string())),
        Ok("test_refresh_token".to_string())
    );
}

#[test]
fn refresh_token_missing_names_its_variable() {
    let cli = Cli::new(
        "u".to_string(),
        1,
        TimeUnit::Hours,
        "MY_ACCESS".to_string(),
        "MY_REFRESH".to_string(),
        "o".to_string(),
    );
    assert_eq!(
        cli.get_refresh_token(None),
        Err(ExchangeError::MissingCredential { variable: "MY_REFRESH".to_string() })
    );
}

#[test]
fn missing_credential_message_quotes_the_variable() {
    assert_eq!(
        missing_credential_message("OPERATOR_ACCESS_TOKEN"),
        "environment variable 'OPERATOR_ACCESS_TOKEN'"
    );
    assert_eq!(missing_credential_message(""), "environment variable ''");
}

#[test]
fn output_in_a_directory_is_the_default_file_below_it() {
    assert_eq!(resolve_output_path("/tmp/out", true), "/tmp/out/long_duration_jwt.json");
    assert_eq!(resolve_output_path(".", true), "./long_duration_jwt.json");
}

#[test]
fn output_elsewhere_is_the_target_itself() {
    assert_eq!(resolve_output_path("test_output.json", false), "test_output.json");
    assert_eq!(resolve_output_path("/tmp/out", false), "/tmp/out");
    assert_eq!(resolve_output_path("", false), "");
    assert_eq!(resolve_output_path("dir/", false), "dir/");
}

#[test]
fn output_in_a_directory_given_with_a_slash() {
    assert_eq!(resolve_output_path("out/", true), "out//long_duration_jwt.json");
}
