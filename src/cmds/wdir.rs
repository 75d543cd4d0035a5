//! The `wdir` command.
use vstd::prelude::*;

use crate::context::Context;
use crate::DsError;

verus! {

/// The working directory of the space `space_name`.
pub fn command(ctx: &Context, space_name: String) -> (r: Result<String, DsError>)
    requires
        ctx.wf(),
    ensures
        match r {
            Ok(w) => ctx.spec_db()@.contains_key(space_name@) && w
                == ctx.spec_db()@[space_name@].wdir,
            Err(e) => {
                &&& !ctx.spec_db()@.contains_key(space_name@)
                &&& e matches DsError::SpaceNotFound(n) && n@ == space_name@
            },
        },
{
    let space = ctx.db().get_space(space_name.as_str())?;
    Ok(space.wdir.clone())
}

} // verus!
