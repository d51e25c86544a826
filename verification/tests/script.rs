use wazuh_agent_installer::command::Platform;
use wazuh_agent_installer::script::{
    bundled_name, script_copied, script_inspected, script_located, script_permitted, ScriptStep,
    COPY_MODE,
};

fn text(path: &str) -> Option<String> {
    Some(path.to_string())
}

fn copy() -> ScriptStep {
    ScriptStep::CopyToTemp("wazuh-setup-agent.sh".to_string())
}

fn invalid() -> Result<String, String> {
    Err("Script path contains invalid UTF-8".to_string())
}

#[test]
fn bundled_script_has_a_name() {
    assert_eq!(bundled_name(), "setup-agent.sh");
}

#[test]
fn unix_inspects_the_bundled_script() {
    assert_eq!(
        script_located(Platform::Unix, Ok(text("/r/setup-agent.sh"))),
        ScriptStep::Inspect(text("/r/setup-agent.sh"))
    );
}

#[test]
fn windows_takes_the_bundled_script() {
    assert_eq!(
        script_located(Platform::Windows, Ok(text("r/setup-agent.sh"))),
        ScriptStep::Finish(Ok("r/setup-agent.sh".to_string()))
    );
    assert_eq!(script_located(Platform::Windows, Ok(None)), ScriptStep::Finish(invalid()));
}

#[test]
fn missing_script_fails() {
    for platform in [Platform::Unix, Platform::Windows] {
        assert_eq!(
            script_located(platform, Err("unknown path".to_string())),
            ScriptStep::Finish(Err("Failed to resolve resource path: unknown path".to_string()))
        );
    }
}

#[test]
fn executable_script_is_used_in_place() {
    for mode in [0o100, 0o010, 0o001, 0o755, 0o100755] {
        assert_eq!(
            script_inspected(text("/r/s.sh"), Some(mode)),
            ScriptStep::Finish(Ok("/r/s.sh".to_string()))
        );
    }
    assert_eq!(script_inspected(None, Some(0o755)), ScriptStep::Finish(invalid()));
}

#[test]
fn other_script_is_copied() {
    assert_eq!(script_inspected(text("/r/s.sh"), Some(0o644)), copy());
    assert_eq!(script_inspected(text("/r/s.sh"), Some(0o666)), copy());
    assert_eq!(script_inspected(text("/r/s.sh"), Some(0)), copy());
    assert_eq!(script_inspected(text("/r/s.sh"), None), copy());
    assert_eq!(script_inspected(None, None), copy());
}

#[test]
fn copy_is_made_executable() {
    assert_eq!(script_copied(Ok(())), ScriptStep::SetMode(0o755));
    assert_eq!(
        script_inspected(text("/tmp/s.sh"), Some(COPY_MODE)),
        ScriptStep::Finish(Ok("/tmp/s.sh".to_string()))
    );
    assert_eq!(
        script_copied(Err("disk full".to_string())),
        ScriptStep::Finish(Err("Failed to copy script to temp dir: disk full".to_string()))
    );
}

#[test]
fn copy_is_what_runs() {
    assert_eq!(script_permitted(text("/tmp/s.sh"), Ok(())), Ok("/tmp/s.sh".to_string()));
    assert_eq!(script_permitted(None, Ok(())), invalid());
    assert_eq!(
        script_permitted(text("/tmp/s.sh"), Err("denied".to_string())),
        Err("Failed to set script permissions: denied".to_string())
    );
}

/// A search with operations that all succeed: what was found, and the mode given to a copy.
fn search(mode: Option<u32>) -> (Result<String, String>, Option<u32>) {
    let mut given: Option<u32> = None;
    let mut step = script_located(Platform::Unix, Ok(text("/r/s.sh")));
    loop {
        step = match step {
            ScriptStep::Inspect(path) => script_inspected(path, mode),
            ScriptStep::CopyToTemp(_) => script_copied(Ok(())),
            ScriptStep::SetMode(mode) => {
                given = Some(mode);
                ScriptStep::Finish(script_permitted(text("/tmp/s.sh"), Ok(())))
            }
            ScriptStep::Finish(found) => return (found, given),
        };
    }
}

#[test]
fn second_search_agrees() {
    for mode in [Some(0o644), Some(0o755), None] {
        assert_eq!(search(mode), search(mode));
    }
    assert_eq!(search(Some(0o644)), (Ok("/tmp/s.sh".to_string()), Some(0o755)));
    assert_eq!(search(Some(0o755)), (Ok("/r/s.sh".to_string()), None));
}
