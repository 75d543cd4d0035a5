use devspace::cmds::new_tree::{
    answer_is_yes, kind_of_choice, new_base_tree, new_cmd_tree, yes_or_no, InteractiveError,
    TreeKind,
};
use devspace::config::SpaceTree;
use devspace::repl::line_args;
use devspace::DsError;

#[test]
fn line_is_split_like_a_shell() {
    assert_eq!(line_args("go 'my proj'").unwrap(), vec!["go".to_string(), "my proj".to_string()]);
    assert!(matches!(line_args("go 'unclosed"), Err(DsError::InvalidREPL)));
}

#[test]
fn menu_answers() {
    assert_eq!(new_base_tree(" 1\n").unwrap(), TreeKind::Cmd);
    assert_eq!(new_base_tree("2").unwrap(), TreeKind::VSplit);
    assert_eq!(new_base_tree("+3").unwrap(), TreeKind::HSplit);
    assert!(matches!(
        new_base_tree("4"),
        Err(DsError::InteractiveError(InteractiveError::UnknownTreeNumber(4)))
    ));
    assert!(matches!(
        new_base_tree("x"),
        Err(DsError::InteractiveError(InteractiveError::InvalidInt(_)))
    ));
    assert!(matches!(kind_of_choice(0), Err(InteractiveError::UnknownTreeNumber(0))));
}

#[test]
fn yes_no_answers() {
    assert!(yes_or_no("\n", true));
    assert!(!yes_or_no(" n \n", true));
    assert!(!yes_or_no("N", true));
    assert!(!yes_or_no("\n", false));
    assert!(yes_or_no("y\n", false));
    assert!(!yes_or_no("yes", false));
    assert!(answer_is_yes("Y", false));
    assert!(!answer_is_yes(" y", false));
}

#[test]
fn typed_command_is_trimmed() {
    match new_cmd_tree("  htop \n") {
        SpaceTree::Cmd(c) => assert_eq!(c, "htop"),
        other => panic!("unexpected {:?}", other),
    }
}
