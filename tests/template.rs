use devspace::config::{cmd_placeholders, SpaceTreeId};
use devspace::database::Space;
use devspace::template::{expand_template, CmdParsingError};
use devspace::DsError;

fn space(wdir: &str) -> Space {
    Space::new(wdir.to_string(), SpaceTreeId::from("jump"))
}

#[test]
fn plain_template_is_unchanged() {
    let w = space("/home/u/proj");
    for t in ["", "ls -la", "echo 'hi' && clear", "a.b c_d é"] {
        assert_eq!(cmd_placeholders(t, &w).unwrap(), t);
    }
}

#[test]
fn wdir_placeholder_alone_gives_the_directory() {
    let w = space("/home/u/proj");
    assert_eq!(cmd_placeholders("{Space.wdir}", &w).unwrap(), "/home/u/proj");
    let other = space("/tmp/x y");
    assert_eq!(cmd_placeholders("{Space.wdir}", &other).unwrap(), "/tmp/x y");
}

#[test]
fn wdir_placeholder_inside_text() {
    assert_eq!(
        expand_template("cd {Space.wdir} && ls {Space.wdir}", "/p").unwrap(),
        "cd /p && ls /p"
    );
}

#[test]
fn unknown_placeholder_is_refused() {
    let w = space("/home/u/proj");
    match cmd_placeholders("{bogus}", &w) {
        Err(DsError::CmdParsingError(CmdParsingError::UnknownPlaceholder(k))) => {
            assert_eq!(k, "bogus")
        }
        other => panic!("unexpected {:?}", other),
    }
}

#[test]
fn closing_bracket_without_opening() {
    match expand_template("a}", "/w") {
        Err(CmdParsingError::ClosingBracketNoOpening) => {}
        other => panic!("unexpected {:?}", other),
    }
}

#[test]
fn opening_bracket_without_closing() {
    match expand_template("a{b", "/w") {
        Err(CmdParsingError::OpeningBracketNoClosing) => {}
        other => panic!("unexpected {:?}", other),
    }
}

#[test]
fn open_bracket_with_empty_name_at_end_is_accepted() {
    assert_eq!(expand_template("a{", "/w").unwrap(), "a");
}

#[test]
fn doubled_braces_are_not_escapes() {
    match expand_template("{{Space.wdir}}", "/w") {
        Err(CmdParsingError::ClosingBracketNoOpening) => {}
        other => panic!("unexpected {:?}", other),
    }
}
