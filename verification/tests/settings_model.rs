use ybm::settings::{
    decode_secret, default_password_length, Account, Algorithm, CliArg, CliFrom, CliSubCommand,
    Config, PathBuf, SecretError, TermColor, Theme,
};

#[test]
fn empty_secret_is_rejected() {
    let err = decode_secret("").unwrap_err();
    assert_eq!(err, SecretError::Empty);
    assert_eq!(
        err.describe(),
        "non-empty base-32 encoded secret for your account"
    );
}

#[test]
fn invalid_characters_are_rejected() {
    let err = decode_secret("11111111").unwrap_err();
    assert_eq!(err, SecretError::InvalidBase32);
    assert_eq!(err.describe(), "base-32 encoded secret for your account");
}

#[test]
fn valid_secret_keeps_its_text_and_decodes() {
    let (text, bytes) = decode_secret("MZXW6YTB").unwrap();
    assert_eq!(text, "MZXW6YTB");
    assert_eq!(bytes, b"fooba".to_vec());
}

#[test]
fn lowercase_secrets_decode_too() {
    let (_, bytes) = decode_secret("mzxw6ytb").unwrap();
    assert_eq!(bytes, b"fooba".to_vec());
}

#[test]
fn defaults_match_the_documentation() {
    assert_eq!(default_password_length(), 6);
    assert_eq!(Algorithm::default(), Algorithm::Sha1);
    let theme = Theme::default();
    assert_eq!(theme.name, TermColor::Blue);
    assert_eq!(theme.code, TermColor::White);
}

#[test]
fn configuration_holds_theme_and_accounts() {
    let config = Config {
        theme: Theme::default(),
        accounts: vec![(
            "email".to_string(),
            Account {
                secret: ("MZXW6YTB".to_string(), b"fooba".to_vec()),
                algorithm: Algorithm::Sha1,
                length: default_password_length(),
                code: String::new(),
            },
        )],
    };
    assert_eq!(config.accounts.len(), 1);
    assert_eq!(config.accounts[0].0, "email");
    assert_eq!(config.accounts[0].1.length, 6);
}

#[test]
fn cli_model_carries_the_subcommands() {
    let tui = CliArg {
        trace: false,
        debug: true,
        quiet: false,
        maybe_subcommand: Some(CliSubCommand::Tui {
            config_file: PathBuf("ybm.toml".to_string()),
        }),
    };
    match tui.maybe_subcommand {
        Some(CliSubCommand::Tui { config_file }) => assert_eq!(config_file.0, "ybm.toml"),
        _ => panic!("expected the terminal subcommand"),
    }
    let webcam = CliSubCommand::From(CliFrom::Webcam { device_index: 0 });
    match webcam {
        CliSubCommand::From(CliFrom::Webcam { device_index }) => assert_eq!(device_index, 0),
        _ => panic!("expected the webcam subcommand"),
    }
}
