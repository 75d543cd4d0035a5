//! The `remove-tree` command.
use vstd::prelude::*;

use crate::config::SpaceTreeId;
use crate::context::Context;
use crate::DsError;

verus! {

/// Removes the tree named `tree_name`, which must exist. Spaces that name it
/// keep the name; launching them then fails.
pub fn command(ctx: &mut Context, tree_name: String) -> (r: Result<(), DsError>)
    requires
        old(ctx).wf(),
    ensures
        final(ctx).wf(),
        match r {
            Ok(()) => {
                &&& old(ctx).spec_config().trees().contains_key(tree_name@)
                &&& final(ctx).spec_config().trees() == old(ctx).spec_config().trees().remove(
                    tree_name@,
                )
                &&& final(ctx).spec_config().default_tree == old(ctx).spec_config().default_tree
                &&& final(ctx).spec_db() == old(ctx).spec_db()
            },
            Err(e) => {
                &&& !old(ctx).spec_config().trees().contains_key(tree_name@)
                &&& e matches DsError::SpaceTreeNotFound(id) && id.0@ == tree_name@
                &&& *final(ctx) == *old(ctx)
            },
        },
{
    let id = SpaceTreeId(tree_name.clone());
    ctx.config().get_tree(&id)?;
    ctx.config_mut().remove_tree(tree_name.as_str());
    Ok(())
}

} // verus!
