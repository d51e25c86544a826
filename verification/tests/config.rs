use wazuh_agent_installer::{validate_config, InstallConfig};

fn valid() -> InstallConfig {
    InstallConfig {
        wazuh_manager: "wazuh.example.com".to_string(),
        wazuh_agent_version: "4.12.0-1".to_string(),
        wazuh_agent_name: "laptop".to_string(),
        ids_engine: "suricata".to_string(),
        suricata_mode: "ids".to_string(),
        install_trivy: false,
        log_level: "INFO".to_string(),
    }
}

fn problem(config: InstallConfig) -> String {
    validate_config(config).unwrap_err()
}

#[test]
fn valid_configs_are_accepted() {
    assert_eq!(validate_config(valid()), Ok(()));
    assert_eq!(validate_config(InstallConfig { suricata_mode: "ips".to_string(), ..valid() }), Ok(()));
    let snort = InstallConfig {
        ids_engine: "snort".to_string(),
        suricata_mode: "anything".to_string(),
        log_level: String::new(),
        ..valid()
    };
    assert_eq!(validate_config(snort), Ok(()));
}

#[test]
fn manager_is_required() {
    let config = InstallConfig { wazuh_manager: String::new(), ..valid() };
    assert_eq!(problem(config), "Wazuh Manager address is required");
}

#[test]
fn name_is_required() {
    let config = InstallConfig { wazuh_agent_name: String::new(), ..valid() };
    assert_eq!(problem(config), "Agent name is required");
}

#[test]
fn version_is_required() {
    let config = InstallConfig { wazuh_agent_version: String::new(), ..valid() };
    assert_eq!(problem(config), "Agent version is required");
}

#[test]
fn engine_must_be_known() {
    for engine in ["", "Suricata", "zeek"] {
        let config = InstallConfig { ids_engine: engine.to_string(), ..valid() };
        assert_eq!(problem(config), "IDS engine must be 'suricata' or 'snort'");
    }
}

#[test]
fn suricata_mode_must_be_known() {
    for mode in ["", "IDS", "both"] {
        let config = InstallConfig { suricata_mode: mode.to_string(), ..valid() };
        assert_eq!(problem(config), "Suricata mode must be 'ids' or 'ips'");
    }
}

#[test]
fn first_problem_is_reported() {
    let nothing = InstallConfig {
        wazuh_manager: String::new(),
        wazuh_agent_version: String::new(),
        wazuh_agent_name: String::new(),
        ids_engine: String::new(),
        suricata_mode: String::new(),
        install_trivy: true,
        log_level: String::new(),
    };
    assert_eq!(problem(nothing.clone()), "Wazuh Manager address is required");
    let named = InstallConfig { wazuh_manager: "m".to_string(), ..nothing };
    assert_eq!(problem(named.clone()), "Agent name is required");
    let named = InstallConfig { wazuh_agent_name: "a".to_string(), ..named };
    assert_eq!(problem(named.clone()), "Agent version is required");
    let named = InstallConfig { wazuh_agent_version: "v".to_string(), ..named };
    assert_eq!(problem(named), "IDS engine must be 'suricata' or 'snort'");
}
