//! The `edit` command.
use vstd::prelude::*;

use crate::config::SpaceTreeId;
use crate::context::Context;
use crate::database::Space;
use crate::DsError;

verus! {

/// Changes the working directory and the tree of the space `space_name`.
/// A new directory must exist (`wdir_exists` tells whether it does). A new
/// tree is taken as it is named: whether such a tree is configured is found
/// out when the space is launched. Returns the space before and after.
pub fn command(
    ctx: &mut Context,
    space_name: String,
    wdir: Option<String>,
    wdir_exists: bool,
    tree: Option<SpaceTreeId>,
) -> (r: Result<(Space, Space), DsError>)
    requires
        old(ctx).wf(),
    ensures
        final(ctx).wf(),
        final(ctx).spec_config() == old(ctx).spec_config(),
        ({
            let db = old(ctx).spec_db()@;
            let before = db[space_name@];
            let after = Space {
                wdir: match wdir {
                    Some(w) => w,
                    None => before.wdir,
                },
                tree: match tree {
                    Some(t) => t,
                    None => before.tree,
                },
            };
            match r {
                Ok((b, a)) => {
                    &&& db.contains_key(space_name@)
                    &&& wdir is Some ==> wdir_exists
                    &&& b == before
                    &&& a == after
                    &&& final(ctx).spec_db()@ == db.insert(space_name@, after)
                },
                Err(DsError::SpaceNotFound(n)) => {
                    &&& !db.contains_key(space_name@)
                    &&& n@ == space_name@
                    &&& final(ctx).spec_db() == old(ctx).spec_db()
                },
                Err(DsError::DirDoesntExists(d)) => {
                    &&& db.contains_key(space_name@)
                    &&& wdir == Some(d)
                    &&& !wdir_exists
                    &&& final(ctx).spec_db() == old(ctx).spec_db()
                },
                Err(_) => false,
            }
        }),
{
    let before = ctx.db().get_space(space_name.as_str())?.clone();
    let mut after = before.clone();
    if let Some(w) = wdir {
        if !wdir_exists {
            return Err(DsError::DirDoesntExists(w));
        }
        after.wdir = w;
    }
    if let Some(t) = tree {
        after.tree = t;
    }
    ctx.db_mut().insert(space_name, after.clone());
    Ok((before, after))
}

} // verus!
