use madara_cli::config::{
    is_path_safe, AppChainConfig, ConfigError, ConfigField, ConfigVersion, RollupMode,
};
use madara_cli::da::DALayer;

fn demo_config() -> AppChainConfig {
    AppChainConfig {
        app_chain: "demo".to_string(),
        base_path: "/tmp/demo".to_string(),
        chain_id: "1001".to_string(),
        mode: RollupMode::Sovereign,
        da_layer: DALayer::NoDA,
        block_time: 10,
        disable_fees: true,
        fee_token: "".to_string(),
        madara_version: "abc123".to_string(),
        config_version: ConfigVersion::Version1,
    }
}

fn assert_same(a: &AppChainConfig, b: &AppChainConfig) {
    assert_eq!(a.app_chain, b.app_chain);
    assert_eq!(a.base_path, b.base_path);
    assert_eq!(a.chain_id, b.chain_id);
    assert_eq!(a.mode, b.mode);
    assert_eq!(a.da_layer, b.da_layer);
    assert_eq!(a.block_time, b.block_time);
    assert_eq!(a.disable_fees, b.disable_fees);
    assert_eq!(a.fee_token, b.fee_token);
    assert_eq!(a.madara_version, b.madara_version);
    assert_eq!(a.config_version, b.config_version);
}

#[test]
fn toml_text_round_trip() {
    let c = demo_config();
    let text = c.to_toml().unwrap();
    let back = AppChainConfig::from_toml(&text).unwrap();
    assert_same(&c, &back);
}

#[test]
fn toml_text_round_trip_avail_with_fees() {
    let mut c = demo_config();
    c.da_layer = DALayer::Avail;
    c.disable_fees = false;
    c.fee_token = "STRK".to_string();
    c.block_time = i64::MAX as u64;
    let text = c.to_toml().unwrap();
    let back = AppChainConfig::from_toml(&text).unwrap();
    assert_same(&c, &back);
}

#[test]
fn toml_text_holds_fields_by_name() {
    let text = demo_config().to_toml().unwrap();
    assert!(text.contains("app_chain = \"demo\""));
    assert!(text.contains("block_time = 10"));
    assert!(text.contains("disable_fees = true"));
    assert!(text.contains("da_layer = \"NoDA\""));
    assert!(text.contains("mode = \"Sovereign\""));
    assert!(text.contains("config_version = \"Version1\""));
}

#[test]
fn table_round_trip() {
    let c = demo_config();
    let t = c.to_table().unwrap();
    assert_eq!(t.get("chain_id").and_then(|v| v.as_str()), Some("1001"));
    let back = AppChainConfig::from_table(&t).unwrap();
    assert_same(&c, &back);
}

#[test]
fn block_time_beyond_toml_integers_is_refused() {
    let mut c = demo_config();
    c.block_time = i64::MAX as u64 + 1;
    assert!(matches!(c.to_table(), Err(ConfigError::BlockTimeOutOfRange)));
    assert!(matches!(c.to_toml(), Err(ConfigError::BlockTimeOutOfRange)));
}

fn text_with(version: &str, mode: &str, block_time: &str) -> String {
    format!(
        "app_chain = \"demo\"\nbase_path = \"/tmp/demo\"\nchain_id = \"1001\"\nmode = \"{}\"\nda_layer = \"Avail\"\nblock_time = {}\ndisable_fees = false\nfee_token = \"STRK\"\nmadara_version = \"abc123\"\nconfig_version = \"{}\"\n",
        mode, block_time, version
    )
}

#[test]
fn known_version_loads() {
    let c = AppChainConfig::from_toml(&text_with("Version1", "Sovereign", "6")).unwrap();
    assert_eq!(c.block_time, 6);
    assert_eq!(c.da_layer, DALayer::Avail);
    assert_eq!(c.fee_token, "STRK");
}

#[test]
fn unknown_version_is_rejected() {
    let r = AppChainConfig::from_toml(&text_with("Version2", "Sovereign", "6"));
    assert!(matches!(r, Err(ConfigError::UnrecognizedVersion)));
}

#[test]
fn unknown_version_is_rejected_before_other_fields() {
    let r = AppChainConfig::from_toml(&text_with("Version0", "Validium", "-1"));
    assert!(matches!(r, Err(ConfigError::UnrecognizedVersion)));
}

#[test]
fn missing_version_is_an_invalid_field() {
    let r = AppChainConfig::from_toml("app_chain = \"demo\"\n");
    assert!(matches!(r, Err(ConfigError::InvalidField(ConfigField::ConfigVersion))));
}

#[test]
fn unknown_mode_is_an_invalid_field() {
    let r = AppChainConfig::from_toml(&text_with("Version1", "Validium", "6"));
    assert!(matches!(r, Err(ConfigError::InvalidField(ConfigField::Mode))));
}

#[test]
fn negative_block_time_is_an_invalid_field() {
    let r = AppChainConfig::from_toml(&text_with("Version1", "Sovereign", "-6"));
    assert!(matches!(r, Err(ConfigError::InvalidField(ConfigField::BlockTime))));
}

#[test]
fn text_that_is_not_toml_is_a_parse_error() {
    let r = AppChainConfig::from_toml("app_chain = ");
    assert!(matches!(r, Err(ConfigError::Parse(_))));
}

#[test]
fn names_and_tags() {
    assert_eq!(RollupMode::Sovereign.name(), "Sovereign");
    assert_eq!(RollupMode::from_name("Sovereign"), Some(RollupMode::Sovereign));
    assert_eq!(RollupMode::from_name("Validity"), None);
    assert_eq!(ConfigVersion::Version1.tag(), "Version1");
    assert_eq!(ConfigVersion::from_tag("Version1"), Some(ConfigVersion::Version1));
    assert_eq!(ConfigVersion::from_tag("version1"), None);
}

#[test]
fn zero_block_time_is_an_invalid_field() {
    let r = AppChainConfig::from_toml(&text_with("Version1", "Sovereign", "0"));
    assert!(matches!(r, Err(ConfigError::InvalidField(ConfigField::BlockTime))));
}

#[test]
fn unsafe_app_chain_names_are_invalid() {
    for name in ["", ".", "..", "a/b", "a\\b"] {
        let mut c = demo_config();
        c.app_chain = name.to_string();
        assert!(!c.is_well_formed());
        let t = c.to_table().unwrap();
        let r = AppChainConfig::from_table(&t);
        assert!(matches!(r, Err(ConfigError::InvalidField(ConfigField::AppChain))));
    }
}

#[test]
fn path_safety() {
    assert!(is_path_safe("mychain"));
    assert!(is_path_safe("my.chain-1"));
    assert!(is_path_safe("..."));
    assert!(!is_path_safe(""));
    assert!(!is_path_safe(".."));
    assert!(!is_path_safe("x/y"));
    assert!(!is_path_safe("x\0y"));
    assert!(demo_config().is_well_formed());
}
