//! The `init` command.
use vstd::prelude::*;

use crate::config::SpaceTreeId;
use crate::context::Context;
use crate::database::Space;
use crate::DsError;

verus! {

/// Creates the space `name` in the directory `wdir`, laid out by `tree` or,
/// without one, by the default tree. A space of that name must not exist.
pub fn command(ctx: &mut Context, name: String, wdir: String, tree: Option<SpaceTreeId>) -> (r:
    Result<(), DsError>)
    requires
        old(ctx).wf(),
    ensures
        final(ctx).wf(),
        match r {
            Ok(()) => {
                &&& !old(ctx).spec_db()@.contains_key(name@)
                &&& final(ctx).spec_db()@ == old(ctx).spec_db()@.insert(
                    name@,
                    Space {
                        wdir,
                        tree: match tree {
                            Some(t) => t,
                            None => old(ctx).spec_config().default_tree,
                        },
                    },
                )
                &&& final(ctx).spec_config() == old(ctx).spec_config()
            },
            Err(e) => {
                &&& old(ctx).spec_db()@.contains_key(name@)
                &&& e matches DsError::SpaceAlreadyExists(n) && n@ == name@
                &&& *final(ctx) == *old(ctx)
            },
        },
{
    if ctx.db().get_space(name.as_str()).is_ok() {
        return Err(DsError::SpaceAlreadyExists(name));
    }
    let tree = match tree {
        Some(t) => t,
        None => ctx.config().default_tree.clone(),
    };
    ctx.db_mut().insert(name, Space::new(wdir, tree));
    Ok(())
}

} // verus!
