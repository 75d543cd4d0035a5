//! The `go` command.
use tmux_interface::TmuxCommands;
use vstd::prelude::*;

use crate::config::compile_ops;
use crate::context::{session_prefix, Context};
use crate::template::TemplateFault;
use crate::tmux::{batch_calls, calls_of, launch_batch, OpView, TmuxCall};
use crate::DsError;

verus! {

/// What going to a space takes.
pub enum GoPlan {
    /// Its session runs already: attach to it.
    Attach { session: String },
    /// Run this batch, which creates the session and lays it out.
    Launch { session: String, batch: TmuxCommands<'static> },
}

/// What going to the space `space_name` takes, `session_exists` telling
/// whether its tmux session runs already. A running session is attached to
/// as it is: its tree is not even looked up.
pub fn command(ctx: &Context, space_name: String, session_exists: bool) -> (r: Result<
    GoPlan,
    DsError,
>)
    requires
        ctx.wf(),
    ensures
        ({
            let sname = session_prefix() + space_name@;
            let db = ctx.spec_db()@;
            let trees = ctx.spec_config().trees();
            match r {
                Ok(GoPlan::Attach { session }) => {
                    &&& db.contains_key(space_name@)
                    &&& session_exists
                    &&& session@ == sname
                },
                Ok(GoPlan::Launch { session, batch }) => {
                    let space = db[space_name@];
                    let tree = trees[space.tree.0@];
                    &&& db.contains_key(space_name@)
                    &&& !session_exists
                    &&& session@ == sname
                    &&& trees.contains_key(space.tree.0@)
                    &&& compile_ops(tree, space.wdir@, sname) is Ok
                    &&& batch_calls(batch) == seq![TmuxCall::NewSession(sname, space.wdir@)]
                        + calls_of(compile_ops(tree, space.wdir@, sname)->Ok_0)
                },
                Err(DsError::SpaceNotFound(n)) => !db.contains_key(space_name@) && n@
                    == space_name@,
                Err(DsError::SpaceTreeNotFound(id)) => {
                    &&& db.contains_key(space_name@)
                    &&& !session_exists
                    &&& id == db[space_name@].tree
                    &&& !trees.contains_key(id.0@)
                },
                Err(DsError::CmdParsingError(pe)) => {
                    let space = db[space_name@];
                    &&& db.contains_key(space_name@)
                    &&& !session_exists
                    &&& trees.contains_key(space.tree.0@)
                    &&& compile_ops(trees[space.tree.0@], space.wdir@, sname) == Err::<
                        Seq<OpView>,
                        TemplateFault,
                    >(pe@)
                },
                Err(_) => false,
            }
        }),
{
    let session = ctx.session_name(space_name.as_str());
    let space = ctx.db().get_space(space_name.as_str())?;
    if session_exists {
        return Ok(GoPlan::Attach { session });
    }
    let tree = ctx.config().get_tree(&space.tree)?;
    match tree.compile(space, session.as_str()) {
        Ok(ops) => {
            let batch = launch_batch(session.clone(), space.wdir.clone(), ops);
            Ok(GoPlan::Launch { session, batch })
        },
        Err(e) => Err(DsError::CmdParsingError(e)),
    }
}

} // verus!
