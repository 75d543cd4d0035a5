use devspace::cli::Cli;
use devspace::cmds::go::GoPlan;
use devspace::cmds::{edit, go, init, list_spaces, list_trees, remove, remove_tree, wdir};
use devspace::config::{Config, SpaceTree, SpaceTreeId};
use devspace::context::Context;
use devspace::database::{DataBase, Space};
use devspace::DsError;

fn proj_context() -> Context {
    let mut db = DataBase::default();
    db.insert(
        "proj".to_string(),
        Space::new("/home/u/proj".to_string(), SpaceTreeId::from("jump")),
    );
    let mut config = Config::new(SpaceTreeId::from("jump"));
    config.insert_tree("jump".to_string(), SpaceTree::Cmd("cd {Space.wdir}".to_string()));
    Context::new("/d".to_string(), db, config, String::new(), String::new())
}

#[test]
fn end_to_end_proj_compiles_to_cd() {
    let ctx = proj_context();
    let space = ctx.db().get_space("proj").unwrap();
    let tree = ctx.config().get_tree(&space.tree).unwrap();
    let ops = tree.compile(space, "T").unwrap();
    assert_eq!(ops.len(), 2);
    match (&ops[0], &ops[1]) {
        (
            devspace::tmux::TmuxOp::SendText { target, text },
            devspace::tmux::TmuxOp::SendEnter { target: t2 },
        ) => {
            assert_eq!(target, "T");
            assert_eq!(text, "cd /home/u/proj");
            assert_eq!(t2, "T");
        }
        other => panic!("unexpected {:?}", other),
    }
}

#[test]
fn go_launches_or_attaches() {
    let ctx = proj_context();
    match go::command(&ctx, "proj".to_string(), false).unwrap() {
        GoPlan::Launch { session, batch } => {
            assert_eq!(session, "Space_proj");
            assert_eq!(batch.commands.len(), 3);
            let shown = batch.to_string();
            assert!(shown.contains("new-session") || shown.contains("new"));
            assert!(shown.contains("/home/u/proj"));
            assert!(shown.contains("cd /home/u/proj"));
        }
        GoPlan::Attach { .. } => panic!("should launch"),
    }
    match go::command(&ctx, "proj".to_string(), true).unwrap() {
        GoPlan::Attach { session } => assert_eq!(session, "Space_proj"),
        GoPlan::Launch { .. } => panic!("should attach"),
    }
    assert!(matches!(go::command(&ctx, "nope".to_string(), false), Err(DsError::SpaceNotFound(_))));
}

#[test]
fn go_with_missing_tree_fails_only_when_launching() {
    let mut ctx = proj_context();
    remove_tree::command(&mut ctx, "jump".to_string()).unwrap();
    assert!(matches!(go::command(&ctx, "proj".to_string(), true), Ok(GoPlan::Attach { .. })));
    match go::command(&ctx, "proj".to_string(), false) {
        Err(DsError::SpaceTreeNotFound(id)) => assert_eq!(id.0, "jump"),
        _ => panic!("expected a missing tree"),
    }
}

#[test]
fn init_then_already_exists() {
    let mut ctx = proj_context();
    init::command(&mut ctx, "new".to_string(), "/x/new".to_string(), None).unwrap();
    let s = ctx.db().get_space("new").unwrap();
    assert_eq!(s.wdir, "/x/new");
    assert_eq!(s.tree.0, "jump");
    match init::command(&mut ctx, "new".to_string(), "/y".to_string(), None) {
        Err(DsError::SpaceAlreadyExists(n)) => assert_eq!(n, "new"),
        other => panic!("unexpected {:?}", other),
    }
    assert_eq!(ctx.db().get_space("new").unwrap().wdir, "/x/new");
}

#[test]
fn remove_commands_need_the_name() {
    let mut ctx = proj_context();
    assert!(matches!(remove::command(&mut ctx, "zz".to_string()), Err(DsError::SpaceNotFound(_))));
    remove::command(&mut ctx, "proj".to_string()).unwrap();
    assert!(ctx.db().is_empty());
    assert!(matches!(
        remove_tree::command(&mut ctx, "zz".to_string()),
        Err(DsError::SpaceTreeNotFound(_))
    ));
}

#[test]
fn edit_changes_and_errors() {
    let mut ctx = proj_context();
    let (before, after) = edit::command(
        &mut ctx,
        "proj".to_string(),
        Some("/new".to_string()),
        true,
        None,
    )
    .unwrap();
    assert_eq!(before.wdir, "/home/u/proj");
    assert_eq!(after.wdir, "/new");
    assert!(matches!(
        edit::command(&mut ctx, "proj".to_string(), Some("/gone".to_string()), false, None),
        Err(DsError::DirDoesntExists(_))
    ));
    assert_eq!(ctx.db().get_space("proj").unwrap().wdir, "/new");
    let (_, after) = edit::command(
        &mut ctx,
        "proj".to_string(),
        Some("/newer".to_string()),
        true,
        Some(SpaceTreeId::from("nope")),
    )
    .unwrap();
    assert_eq!(after.tree.0, "nope");
    let s = ctx.db().get_space("proj").unwrap();
    assert_eq!(s.wdir, "/newer");
    assert_eq!(s.tree.0, "nope");
    match go::command(&ctx, "proj".to_string(), false) {
        Err(DsError::SpaceTreeNotFound(id)) => assert_eq!(id.0, "nope"),
        _ => panic!("the missing tree shows at launch"),
    }
    assert!(matches!(
        edit::command(&mut ctx, "none".to_string(), None, true, None),
        Err(DsError::SpaceNotFound(_))
    ));
}

#[test]
fn wdir_and_lists() {
    let ctx = proj_context();
    assert_eq!(wdir::command(&ctx, "proj".to_string()).unwrap(), "/home/u/proj");
    assert_eq!(list_spaces::command(&ctx).unwrap().len(), 1);
    assert_eq!(list_trees::command(&ctx).unwrap().len(), 1);
    let empty = Context::new(
        "/d".to_string(),
        DataBase::default(),
        Config::new(SpaceTreeId::from("x")),
        String::new(),
        String::new(),
    );
    assert!(matches!(list_spaces::command(&empty), Err(DsError::NothingToList)));
    assert!(matches!(list_trees::command(&empty), Err(DsError::NothingToList)));
}

#[test]
fn context_paths_and_session_name() {
    assert_eq!(Context::db_file_path("/d"), "/d/db.ron");
    assert_eq!(Context::conf_file_path("/d/"), "/d/config.ron");
    let ctx = proj_context();
    assert_eq!(ctx.session_name("proj"), "Space_proj");
}

#[test]
fn terminate_flushes_both_buffers_once() {
    let mut ctx = proj_context();
    assert!(!ctx.terminated());
    let writes = ctx.terminate("DB".to_string(), "CONF".to_string());
    assert!(ctx.terminated());
    assert_eq!(writes.len(), 2);
    assert_eq!(writes[0].path, "/d/db.ron");
    assert_eq!(writes[0].contents, "DB");
    assert_eq!(writes[1].path, "/d/config.ron");
    assert_eq!(writes[1].contents, "CONF");
}

#[test]
fn storage_directory_lookup_order() {
    let flag = Cli { subcmds: None, dir: Some("/flag".to_string()) };
    assert_eq!(flag.dir(Some("/env".to_string()), "/home/u".to_string()), "/flag");
    let none = Cli { subcmds: None, dir: None };
    assert_eq!(none.dir(Some("/env".to_string()), "/home/u".to_string()), "/env");
    assert_eq!(none.dir(None, "/home/u".to_string()), "/home/u/.devspace/");
}
