use hdc_runner::invocation::Invocation;

fn owned(items: &[&str]) -> Vec<String> {
    let mut out = Vec::new();
    for item in items {
        out.push(item.to_string());
    }
    out
}

#[test]
fn program_is_the_device_tool() {
    let invocation = Invocation::new("device123", vec![]);
    assert_eq!(invocation.program(), "hdc");
}

#[test]
fn leading_arguments_are_selector_target_mode() {
    let invocation = Invocation::new("device123", vec!["ls"]);
    assert_eq!(invocation.leading(), &owned(&["-t", "device123", "shell"]));
    assert_eq!(invocation.target_id(), "device123");
}

#[test]
fn no_passthrough_arguments_gives_only_the_prefix() {
    let invocation = Invocation::new("device123", vec![]);
    assert!(invocation.trailing().is_empty());
    assert_eq!(invocation.argv(), owned(&["-t", "device123", "shell"]));
}

#[test]
fn passthrough_arguments_keep_their_order() {
    let invocation = Invocation::new("device123", vec!["a", "b", "c"]);
    let argv = invocation.argv();
    assert_eq!(argv.len(), 6);
    assert_eq!(&argv[3..], &owned(&["a", "b", "c"])[..]);
    assert_eq!(invocation.trailing(), &owned(&["a", "b", "c"]));
}

#[test]
fn full_argument_vector_for_ability_start() {
    let invocation = Invocation::new("device123", vec!["aa", "start", "-a", "MainAbility"]);
    assert_eq!(
        invocation.argv(),
        owned(&["-t", "device123", "shell", "aa", "start", "-a", "MainAbility"])
    );
}

#[test]
fn target_identifier_is_not_validated() {
    let invocation = Invocation::new("", vec!["ls"]);
    assert_eq!(invocation.target_id(), "");
    assert_eq!(invocation.argv(), owned(&["-t", "", "shell", "ls"]));
    let odd = Invocation::new("-t shell; rm", vec![]);
    assert_eq!(odd.argv(), owned(&["-t", "-t shell; rm", "shell"]));
}

#[test]
fn passthrough_arguments_are_not_escaped_or_filtered() {
    let invocation = Invocation::new("d", vec!["", "a b", "-t", "shell", "\"q\"", "a b"]);
    assert_eq!(
        invocation.trailing(),
        &owned(&["", "a b", "-t", "shell", "\"q\"", "a b"])
    );
    assert_eq!(
        invocation.argv(),
        owned(&["-t", "d", "shell", "", "a b", "-t", "shell", "\"q\"", "a b"])
    );
}

#[test]
fn same_inputs_build_the_same_argument_vector() {
    let first = Invocation::new("device123", vec!["aa", "start"]);
    let second = Invocation::new("device123", vec!["aa", "start"]);
    assert_eq!(first.argv(), second.argv());
    assert_eq!(first.program(), second.program());
}
