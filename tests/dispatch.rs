use mycli::command::{forwarded_args, plan, select, Plan, Step, Subcommand};

fn strings(items: &[&str]) -> Vec<String> {
    items.iter().map(|s| s.to_string()).collect()
}

fn run(tokens: &[&str]) -> Plan {
    plan(select(&strings(tokens)), "1.0.0")
}

#[test]
fn no_tokens_select_nothing() {
    assert_eq!(select(&Vec::new()), Subcommand::Absent);
}

#[test]
fn zarf_takes_every_later_token() {
    assert_eq!(
        select(&strings(&["zarf", "-v", "--log-level", "debug", "package"])),
        Subcommand::Zarf(strings(&["-v", "--log-level", "debug", "package"]))
    );
    assert_eq!(select(&strings(&["zarf"])), Subcommand::Zarf(Vec::new()));
}

#[test]
fn version_word_selects_version() {
    assert_eq!(select(&strings(&["version"])), Subcommand::Version);
}

#[test]
fn other_first_token_is_unknown() {
    assert_eq!(
        select(&strings(&["frobnicate", "zarf"])),
        Subcommand::Unknown("frobnicate".to_string())
    );
    assert_eq!(select(&strings(&["Zarf"])), Subcommand::Unknown("Zarf".to_string()));
}

#[test]
fn forwarded_args_keep_what_is_given() {
    assert_eq!(forwarded_args(strings(&["--", "-x"])), strings(&["--", "-x"]));
    assert_eq!(forwarded_args(Vec::new()), strings(&["--help"]));
}

#[test]
fn zarf_arguments_reach_the_tool_verbatim() {
    let p = run(&["zarf", "--confirm", "-a", "init", "--components=git-server"]);
    assert_eq!(
        p.step,
        Step::Delegate(strings(&["--confirm", "-a", "init", "--components=git-server"]))
    );
    assert!(p.stdout.is_empty());
    assert!(p.stderr.is_empty());
    assert!(!p.show_help);
}

#[test]
fn bare_zarf_forwards_help_flag() {
    let p = run(&["zarf"]);
    assert_eq!(p.step, Step::Delegate(strings(&["--help"])));
    assert!(p.stdout.is_empty());
    assert!(p.stderr.is_empty());
}

#[test]
fn version_prints_own_version_first() {
    let p = plan(Subcommand::Version, "2.3.4");
    assert_eq!(p.stdout, strings(&["mycli version 2.3.4", "Zarf version:"]));
    assert!(p.stderr.is_empty());
    assert!(!p.show_help);
    assert_eq!(p.step, Step::Delegate(strings(&["version"])));
}

#[test]
fn unknown_subcommand_is_reported_and_not_delegated() {
    let p = run(&["frobnicate", "--force"]);
    assert_eq!(p.stderr, strings(&["Unknown subcommand: frobnicate"]));
    assert!(p.stdout.is_empty());
    assert!(!p.show_help);
    assert_eq!(p.step, Step::Exit(1));
}

#[test]
fn no_arguments_show_help_and_fail() {
    let p = run(&[]);
    assert!(p.show_help);
    assert!(p.stdout.is_empty());
    assert!(p.stderr.is_empty());
    assert_eq!(p.step, Step::Exit(1));
}
