use playmove_api::errors::ApiError;
use playmove_api::toolchain::{
    base_toml_file, verify_git_installed, verify_github_token_set, verify_prettier_move_installed,
    verify_startup, verify_sui_installed, Network, ToolchainConfig, CACHE_WARMUP_TIMEOUT,
    DEFAULT_FORMAT_TIMEOUT, DEFAULT_TIMEOUT, PRETTIER_DEFAULT_CONFIG,
};

#[test]
fn manifest_names_the_package_twice() {
    let expected = "[package]\nname = \"hello\"\nedition = \"2024.beta\"\n\n[dependencies]\n\n[addresses]\nhello = \"0x0\"\n        ";
    assert_eq!(base_toml_file("hello"), expected);
}

#[test]
fn manifest_of_empty_name() {
    let expected = "[package]\nname = \"\"\nedition = \"2024.beta\"\n\n[dependencies]\n\n[addresses]\n = \"0x0\"\n        ";
    assert_eq!(base_toml_file(""), expected);
}

#[test]
fn style_configuration_is_fixed() {
    let expected = "\n{\n\t\"printWidth\": 100,\n\t\"tabWidth\": 4,\n\t\"useModuleLabel\": true,\n\t\"autoGroupImports\": \"module\",\n}\n";
    assert_eq!(PRETTIER_DEFAULT_CONFIG, expected);
}

#[test]
fn deadlines_are_fixed() {
    assert_eq!(DEFAULT_TIMEOUT, 20);
    assert_eq!(DEFAULT_FORMAT_TIMEOUT, 2);
    assert_eq!(CACHE_WARMUP_TIMEOUT, 120);
}

#[test]
fn binary_defaults_to_sui() {
    let config = ToolchainConfig { mainnet_binary: None, testnet_binary: None };
    assert_eq!(Network::Mainnet.binary_name(&config), "sui");
    assert_eq!(Network::Testnet.binary_name(&config), "sui");
}

#[test]
fn binary_follows_the_configuration() {
    let config = ToolchainConfig {
        mainnet_binary: Some("/opt/sui/mainnet".to_string()),
        testnet_binary: Some("/opt/sui/testnet".to_string()),
    };
    assert_eq!(Network::Mainnet.binary_name(&config), "/opt/sui/mainnet");
    assert_eq!(Network::Testnet.binary_name(&config), "/opt/sui/testnet");
    let half = ToolchainConfig { mainnet_binary: None, testnet_binary: Some("t".to_string()) };
    assert_eq!(Network::Mainnet.binary_name(&half), "sui");
    assert_eq!(Network::Testnet.binary_name(&half), "t");
}

#[test]
fn toolchain_probes_are_judged() {
    assert_eq!(verify_sui_installed(true, true), Ok(()));
    assert_eq!(verify_sui_installed(true, false), Err("sui testnet CLI not installed".to_string()));
    assert_eq!(verify_sui_installed(false, true), Err("sui mainnet CLI not installed".to_string()));
    assert_eq!(
        verify_sui_installed(false, false),
        Err("sui CLI not installed on any network.".to_string())
    );
}

#[test]
fn tool_probes_are_judged() {
    assert_eq!(verify_git_installed(true), Ok(()));
    assert_eq!(verify_git_installed(false), Err("git CLI not installed".to_string()));
    assert_eq!(verify_prettier_move_installed(true), Ok(()));
    assert_eq!(verify_prettier_move_installed(false), Err("prettier CLI not installed".to_string()));
    assert_eq!(verify_github_token_set(true), Ok(()));
    assert_eq!(
        verify_github_token_set(false),
        Err("GITHUB_TOKEN environment variable not set".to_string())
    );
}

#[test]
fn startup_reports_the_first_fault() {
    assert_eq!(verify_startup(true, true, true, true), Ok(()));
    assert_eq!(
        verify_startup(false, true, false, false),
        Err("sui mainnet CLI not installed".to_string())
    );
    assert_eq!(verify_startup(true, true, false, false), Err("git CLI not installed".to_string()));
    assert_eq!(
        verify_startup(true, true, true, false),
        Err("prettier CLI not installed".to_string())
    );
}

#[test]
fn errors_map_to_statuses() {
    let bad = ApiError::BadRequest("x".to_string());
    let internal = ApiError::InternalServerError("y".to_string());
    let missing = ApiError::NotFound("z".to_string());
    assert_eq!(bad.status_code(), 400);
    assert_eq!(internal.status_code(), 500);
    assert_eq!(missing.status_code(), 404);
    assert_eq!(bad.message(), "x");
    assert_eq!(bad.describe(), "Invalid input: x");
    assert_eq!(internal.describe(), "Internal server error: y");
    assert_eq!(missing.describe(), "Resource not found: z");
}
