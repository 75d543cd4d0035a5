use devspace::cmds::new_tree::{new_tmux_hsplit_tree, new_tmux_vsplit_tree};
use devspace::config::{SpaceTree, SpaceTreeId};
use devspace::database::Space;
use devspace::tmux::{Direction, Orientation, TmuxOp};
use devspace::DsError;

fn space() -> Space {
    Space::new("/home/u/proj".to_string(), SpaceTreeId::from("jump"))
}

fn cmd(s: &str) -> SpaceTree {
    SpaceTree::Cmd(s.to_string())
}

fn text(op: &TmuxOp) -> (String, String) {
    match op {
        TmuxOp::SendText { target, text } => (target.clone(), text.clone()),
        other => panic!("not a text: {:?}", other),
    }
}

fn enter(op: &TmuxOp) -> String {
    match op {
        TmuxOp::SendEnter { target } => target.clone(),
        other => panic!("not an enter: {:?}", other),
    }
}

fn split(op: &TmuxOp) -> (String, Orientation) {
    match op {
        TmuxOp::SplitPane { target, orientation } => (target.clone(), *orientation),
        other => panic!("not a split: {:?}", other),
    }
}

fn select(op: &TmuxOp) -> Direction {
    match op {
        TmuxOp::SelectPane { direction } => *direction,
        other => panic!("not a selection: {:?}", other),
    }
}

#[test]
fn leaf_compiles_to_text_then_enter() {
    let ops = cmd("htop").compile(&space(), "T").unwrap();
    assert_eq!(ops.len(), 2);
    assert_eq!(text(&ops[0]), ("T".to_string(), "htop".to_string()));
    assert_eq!(enter(&ops[1]), "T");
}

#[test]
fn vsplit_of_two_leaves_is_seven_ops_in_order() {
    let tree = new_tmux_vsplit_tree(Some(cmd("a")), Some(cmd("b")));
    let ops = tree.compile(&space(), "T").unwrap();
    assert_eq!(ops.len(), 7);
    assert_eq!(split(&ops[0]), ("T".to_string(), Orientation::Horizontal));
    assert_eq!(select(&ops[1]), Direction::Left);
    assert_eq!(text(&ops[2]), ("T".to_string(), "a".to_string()));
    assert_eq!(enter(&ops[3]), "T");
    assert_eq!(select(&ops[4]), Direction::Right);
    assert_eq!(text(&ops[5]), ("T".to_string(), "b".to_string()));
    assert_eq!(enter(&ops[6]), "T");
}

#[test]
fn empty_vsplit_is_the_split_alone() {
    let ops = new_tmux_vsplit_tree(None, None).compile(&space(), "T").unwrap();
    assert_eq!(ops.len(), 1);
    assert_eq!(split(&ops[0]), ("T".to_string(), Orientation::Horizontal));
}

#[test]
fn hsplit_uses_vertical_split_and_up_down() {
    let tree = new_tmux_hsplit_tree(None, Some(cmd("cd {Space.wdir}")));
    let ops = tree.compile(&space(), "T").unwrap();
    assert_eq!(ops.len(), 4);
    assert_eq!(split(&ops[0]), ("T".to_string(), Orientation::Vertical));
    assert_eq!(select(&ops[1]), Direction::Down);
    assert_eq!(text(&ops[2]), ("T".to_string(), "cd /home/u/proj".to_string()));
    assert_eq!(enter(&ops[3]), "T");
    let top = new_tmux_hsplit_tree(Some(cmd("x")), None).compile(&space(), "T").unwrap();
    assert_eq!(select(&top[1]), Direction::Up);
}

#[test]
fn nested_failure_aborts_compilation() {
    let tree = new_tmux_vsplit_tree(Some(cmd("ok")), Some(new_tmux_hsplit_tree(Some(cmd("{x}")), None)));
    assert!(tree.compile(&space(), "T").is_err());
    match tree.build(&space(), "T") {
        Err(DsError::CmdParsingError(_)) => {}
        other => panic!("unexpected {:?}", other.map(|c| c.to_string())),
    }
}

#[test]
fn build_makes_one_tmux_command_per_op() {
    let tree = new_tmux_vsplit_tree(Some(cmd("cd {Space.wdir}")), Some(cmd("b")));
    let batch = tree.build(&space(), "Space_proj").unwrap();
    assert_eq!(batch.commands.len(), 7);
    let shown = batch.to_string();
    assert!(shown.contains("split-window") || shown.contains("splitw"));
    assert!(shown.contains("-h"));
    assert!(shown.contains("select-pane") || shown.contains("selectp"));
    assert!(shown.contains("send-keys") || shown.contains("send"));
    assert!(shown.contains("cd /home/u/proj"));
    assert!(shown.contains("C-m"));
    assert!(shown.contains("Space_proj"));
}

#[test]
fn pretty_print_shows_the_tree() {
    let tree = new_tmux_vsplit_tree(Some(cmd("echo \"hi\"")), None);
    assert_eq!(
        tree.pretty_print(2),
        "TmuxVSplit:\n    | lhs: Cmd(\"echo \\\"hi\\\"\")\n    | rhs: None\n"
    );
    let nested = new_tmux_hsplit_tree(Some(new_tmux_vsplit_tree(None, None)), Some(cmd("a")));
    assert_eq!(
        nested.pretty_print(0),
        "TmuxHSplit:\n  | top: TmuxVSplit:\n    | lhs: None\n    | rhs: None\n  | bottom: Cmd(\"a\")\n"
    );
}

#[test]
fn clone_keeps_the_tree() {
    let tree = new_tmux_vsplit_tree(Some(cmd("a")), Some(new_tmux_hsplit_tree(None, Some(cmd("b")))));
    let copy = tree.clone();
    assert_eq!(copy.pretty_print(0), tree.pretty_print(0));
}

#[test]
fn build_hsplit_selects_up_and_down() {
    let tree = new_tmux_hsplit_tree(Some(cmd("a")), Some(cmd("b")));
    let batch = tree.build(&space(), "S").unwrap();
    assert_eq!(batch.commands.len(), 7);
    let shown = batch.to_string();
    assert!(shown.contains("-v"));
    assert!(shown.contains("-U"));
    assert!(shown.contains("-D"));
    let vsplit = new_tmux_vsplit_tree(Some(cmd("a")), Some(cmd("b"))).build(&space(), "S").unwrap();
    let shown = vsplit.to_string();
    assert!(shown.contains("-L"));
    assert!(shown.contains("-R"));
}
