use target_provider::selector::{resolve_target_agents, split_trimmed};

fn labels(pairs: &[(&str, &str)]) -> Vec<(String, String)> {
    pairs.iter().map(|(k, v)| (k.to_string(), v.to_string())).collect()
}

#[test]
fn missing_agent_key_gives_no_agents() {
    assert!(resolve_target_agents(&labels(&[])).is_empty());
    assert!(resolve_target_agents(&labels(&[("app", "ecu"), ("agent", "a")])).is_empty());
}

#[test]
fn agents_are_trimmed_in_order() {
    let r = resolve_target_agents(&labels(&[("ankaios.io/agent", "a, b,c")]));
    assert_eq!(r, vec!["a", "b", "c"]);
}

#[test]
fn empty_agent_names_pass_through() {
    let r = resolve_target_agents(&labels(&[("ankaios.io/agent", "a,,b")]));
    assert_eq!(r, vec!["a", "", "b"]);
}

#[test]
fn trailing_comma_gives_trailing_empty_agent() {
    let r = resolve_target_agents(&labels(&[("x", "y"), ("ankaios.io/agent", " a ,")]));
    assert_eq!(r, vec!["a", ""]);
}

#[test]
fn duplicate_agents_are_kept() {
    let r = resolve_target_agents(&labels(&[("ankaios.io/agent", "a,a")]));
    assert_eq!(r, vec!["a", "a"]);
}

#[test]
fn empty_agent_value_is_one_empty_agent() {
    let r = resolve_target_agents(&labels(&[("ankaios.io/agent", "")]));
    assert_eq!(r, vec![""]);
}

#[test]
fn split_keeps_non_ascii_text() {
    assert_eq!(split_trimmed("\u{e9}t\u{e9} ;\tb", ';'), vec!["\u{e9}t\u{e9}", "b"]);
}
