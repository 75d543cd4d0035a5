//! The `remove` command.
use vstd::prelude::*;

use crate::context::Context;
use crate::DsError;

verus! {

/// Removes the space named `space`, which must exist.
pub fn command(ctx: &mut Context, space: String) -> (r: Result<(), DsError>)
    requires
        old(ctx).wf(),
    ensures
        final(ctx).wf(),
        match r {
            Ok(()) => {
                &&& old(ctx).spec_db()@.contains_key(space@)
                &&& final(ctx).spec_db()@ == old(ctx).spec_db()@.remove(space@)
                &&& final(ctx).spec_config() == old(ctx).spec_config()
            },
            Err(e) => {
                &&& !old(ctx).spec_db()@.contains_key(space@)
                &&& e matches DsError::SpaceNotFound(n) && n@ == space@
                &&& *final(ctx) == *old(ctx)
            },
        },
{
    ctx.db().get_space(space.as_str())?;
    ctx.db_mut().remove(space.as_str());
    Ok(())
}

} // verus!
