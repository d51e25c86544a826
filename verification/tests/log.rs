use wazuh_agent_installer::classify_line;
use wazuh_agent_installer::log::classify_lowered;

#[test]
fn error_markers_give_error() {
    assert_eq!(classify_line("2024 [ERROR] no disk"), "error");
    assert_eq!(classify_line("Download Failed"), "error");
    assert_eq!(classify_line("Error: no such file"), "error");
}

#[test]
fn success_markers_give_success() {
    assert_eq!(classify_line("[SUCCESS] done"), "success");
    assert_eq!(classify_line("Agent installed Successfully"), "success");
    assert_eq!(classify_line("Step COMPLETED."), "success");
}

#[test]
fn other_lines_are_info() {
    assert_eq!(classify_line(""), "info");
    assert_eq!(classify_line("[INFO] Installing Suricata"), "info");
    assert_eq!(classify_line("error without a colon"), "info");
    assert_eq!(classify_line("success"), "info");
    assert_eq!(classify_line("complete"), "info");
}

#[test]
fn error_outweighs_success() {
    assert_eq!(classify_line("completed, but 2 steps failed"), "error");
    assert_eq!(classify_line("[SUCCESS] [ERROR]"), "error");
}

#[test]
fn case_is_ignored_beyond_ascii() {
    assert_eq!(classify_line("ÉTAPE COMPLETED"), "success");
    assert_eq!(classify_line("ÉCHEC: FAILED"), "error");
    // The lower case of a capital I with a dot is two characters, so this is no marker.
    assert_eq!(classify_line("FA\u{130}LED"), "info");
}

#[test]
fn lowered_classification_looks_for_lower_case() {
    assert_eq!(classify_lowered("[error]"), "error");
    assert_eq!(classify_lowered("[ERROR]"), "info");
    assert_eq!(classify_lowered("completed"), "success");
}

#[test]
fn ascii_case_is_ignored() {
    let lines = [
        "Download Failed",
        "[Success] ok",
        "Step completed",
        "plain Line",
        "Error: x",
        "",
        "Étape — Completed",
        "ΟΔΟΣ Failed",
        "aΣ",
        "aΣb [Error]",
        "FA\u{130}LED completed",
    ];
    for line in lines {
        let level = classify_line(line);
        assert_eq!(classify_line(&line.to_ascii_uppercase()), level);
        assert_eq!(classify_line(&line.to_ascii_lowercase()), level);
    }
}

#[test]
fn lower_case_does_not_depend_on_ascii_case() {
    for line in ["aΣ", "AΣb", "Σa", "ΟΔΟΣ x", "xΣ.", "\u{130}I", "É—K\u{212a}"] {
        let lowered = line.to_lowercase();
        assert_eq!(line.to_ascii_uppercase().to_lowercase(), lowered);
        assert_eq!(line.to_ascii_lowercase().to_lowercase(), lowered);
    }
    for c in '\0'..=char::MAX {
        let line = format!("a{c}Σ{c}B{c}Σ{c}");
        let lowered = line.to_lowercase();
        assert_eq!(line.to_ascii_uppercase().to_lowercase(), lowered);
        assert_eq!(line.to_ascii_lowercase().to_lowercase(), lowered);
    }
}

#[test]
fn added_text_never_lowers_the_level() {
    let rank = |line: &str| match classify_line(line) {
        "error" => 2,
        "success" => 1,
        _ => 0,
    };
    let lines = ["", "plain", "Completed", "FAILED", "fai", "led", "É—Σ", "[Success] aΣ", "b"];
    for a in lines {
        for b in lines {
            let both = format!("{a}{b}");
            assert!(rank(&both) >= rank(a));
            assert!(rank(&both) >= rank(b));
        }
    }
    assert_eq!(classify_line("failed"), "error");
}
