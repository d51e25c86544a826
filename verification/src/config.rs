//! What the user asks to be installed.

use crate::text;
use vstd::prelude::*;

verus! {

/// The choices made in the installer's wizard.
#[derive(Debug, Clone, PartialEq, Eq)]
pub struct InstallConfig {
    pub wazuh_manager: String,
    pub wazuh_agent_version: String,
    pub wazuh_agent_name: String,
    /// "suricata" or "snort".
    pub ids_engine: String,
    /// "ids" or "ips".
    pub suricata_mode: String,
    pub install_trivy: bool,
    pub log_level: String,
}

/// The configuration names a manager, an agent and a version, and an engine that there is, in
/// a mode that there is where the engine has modes.
pub open spec fn is_valid(config: InstallConfig) -> bool {
    &&& config.wazuh_manager@.len() > 0
    &&& config.wazuh_agent_name@.len() > 0
    &&& config.wazuh_agent_version@.len() > 0
    &&& engine_known(config)
    &&& mode_known(config)
}

/// The engine is one of the two there are.
pub open spec fn engine_known(config: InstallConfig) -> bool {
    config.ids_engine@ == "suricata"@ || config.ids_engine@ == "snort"@
}

/// Where the engine is Suricata, its mode is one of the two there are.
pub open spec fn mode_known(config: InstallConfig) -> bool {
    config.ids_engine@ == "suricata"@ ==> {
        config.suricata_mode@ == "ids"@ || config.suricata_mode@ == "ips"@
    }
}

/// What is wrong with a configuration that is not valid: of several things, the first in the
/// order manager, name, version, engine, mode.
pub open spec fn first_problem(config: InstallConfig) -> Seq<char> {
    if config.wazuh_manager@.len() == 0 {
        "Wazuh Manager address is required"@
    } else if config.wazuh_agent_name@.len() == 0 {
        "Agent name is required"@
    } else if config.wazuh_agent_version@.len() == 0 {
        "Agent version is required"@
    } else if !engine_known(config) {
        "IDS engine must be 'suricata' or 'snort'"@
    } else {
        "Suricata mode must be 'ids' or 'ips'"@
    }
}

/// Accepts a valid configuration, and says what is wrong with another.
pub fn validate_config(config: InstallConfig) -> (res: Result<(), String>)
    ensures
        res is Ok <==> is_valid(config),
        res matches Err(problem) ==> problem@ == first_problem(config),
{
    if config.wazuh_manager.as_str().is_empty() {
        return Err("Wazuh Manager address is required".to_string());
    }
    if config.wazuh_agent_name.as_str().is_empty() {
        return Err("Agent name is required".to_string());
    }
    if config.wazuh_agent_version.as_str().is_empty() {
        return Err("Agent version is required".to_string());
    }
    let suricata: bool = text::same(config.ids_engine.as_str(), "suricata");
    if !suricata && !text::same(config.ids_engine.as_str(), "snort") {
        return Err("IDS engine must be 'suricata' or 'snort'".to_string());
    }
    if suricata && !text::same(config.suricata_mode.as_str(), "ids")
        && !text::same(config.suricata_mode.as_str(), "ips") {
        return Err("Suricata mode must be 'ids' or 'ips'".to_string());
    }
    Ok(())
}

/// A configuration is turned down for each single defect, and for nothing else: an empty manager,
/// name or version, an engine that is neither "suricata" nor "snort", and a mode that is neither
/// "ids" nor "ips" where the engine is "suricata".
pub proof fn law_defects_turn_down(config: InstallConfig)
    ensures
        config.wazuh_manager@ == Seq::<char>::empty() ==> !is_valid(config),
        config.wazuh_agent_name@ == Seq::<char>::empty() ==> !is_valid(config),
        config.wazuh_agent_version@ == Seq::<char>::empty() ==> !is_valid(config),
        is_valid(config) && config.ids_engine@ != "snort"@ ==> config.ids_engine@ == "suricata"@,
        is_valid(config) && config.ids_engine@ != "snort"@ && config.suricata_mode@ != "ids"@
            ==> config.suricata_mode@ == "ips"@,
        !is_valid(config) ==> {
            ||| config.wazuh_manager@ == Seq::<char>::empty()
            ||| config.wazuh_agent_name@ == Seq::<char>::empty()
            ||| config.wazuh_agent_version@ == Seq::<char>::empty()
            ||| config.ids_engine@ != "suricata"@ && config.ids_engine@ != "snort"@
            ||| config.ids_engine@ == "suricata"@ && config.suricata_mode@ != "ids"@
                && config.suricata_mode@ != "ips"@
        },
{
    assert(config.wazuh_manager@.len() == 0 ==> config.wazuh_manager@ =~= Seq::<char>::empty());
    assert(config.wazuh_agent_name@.len() == 0 ==> config.wazuh_agent_name@ =~= Seq::<
        char,
    >::empty());
    assert(config.wazuh_agent_version@.len() == 0 ==> config.wazuh_agent_version@ =~= Seq::<
        char,
    >::empty());
}

/// What is said of a configuration that is turned down names a defect that it has, and none of
/// those asked for earlier: manager, name, version, engine, mode.
pub proof fn law_problem_names_first_defect(config: InstallConfig)
    requires
        !is_valid(config),
    ensures
        ({
            let problem = first_problem(config);
            let manager = config.wazuh_manager@.len() > 0;
            let name = config.wazuh_agent_name@.len() > 0;
            let version = config.wazuh_agent_version@.len() > 0;
            let engine = config.ids_engine@ == "suricata"@ || config.ids_engine@ == "snort"@;
            &&& problem == "Wazuh Manager address is required"@ <==> !manager
            &&& problem == "Agent name is required"@ <==> manager && !name
            &&& problem == "Agent version is required"@ <==> manager && name && !version
            &&& problem == "IDS engine must be 'suricata' or 'snort'"@ <==> manager && name
                && version && !engine
            &&& problem == "Suricata mode must be 'ids' or 'ips'"@ <==> manager && name && version
                && engine
        }),
{
    reveal_strlit("Wazuh Manager address is required");
    reveal_strlit("Agent name is required");
    reveal_strlit("Agent version is required");
    reveal_strlit("IDS engine must be 'suricata' or 'snort'");
    reveal_strlit("Suricata mode must be 'ids' or 'ips'");
    assert("Wazuh Manager address is required"@.len() == 33);
    assert("Agent name is required"@.len() == 22);
    assert("Agent version is required"@.len() == 25);
    assert("IDS engine must be 'suricata' or 'snort'"@.len() == 40);
    assert("Suricata mode must be 'ids' or 'ips'"@.len() == 36);
}

/// The answer does not depend on the log level, on the choice of Trivy, nor on what the manager,
/// the name and the version are as long as they are there. With Snort it does not depend on the
/// mode.
pub proof fn law_answer_depends_on(a: InstallConfig, b: InstallConfig)
    requires
        a.wazuh_manager@.len() == 0 <==> b.wazuh_manager@.len() == 0,
        a.wazuh_agent_name@.len() == 0 <==> b.wazuh_agent_name@.len() == 0,
        a.wazuh_agent_version@.len() == 0 <==> b.wazuh_agent_version@.len() == 0,
        a.ids_engine@ == b.ids_engine@,
        a.ids_engine@ == "snort"@ || a.suricata_mode@ == b.suricata_mode@,
    ensures
        is_valid(a) == is_valid(b),
        !is_valid(a) ==> first_problem(a) == first_problem(b),
{
    reveal_strlit("suricata");
    reveal_strlit("snort");
    assert("suricata"@.len() != "snort"@.len());
}

} // verus!
