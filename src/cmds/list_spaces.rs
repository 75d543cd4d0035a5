//! The `list-spaces` command.
use vstd::prelude::*;

use crate::context::Context;
use crate::database::Space;
use crate::entries::{map_of, unique_names};
use crate::DsError;

verus! {

/// The spaces to list, each name once; listing no space is an error.
pub fn command(ctx: &Context) -> (r: Result<&Vec<(String, Space)>, DsError>)
    requires
        ctx.wf(),
    ensures
        match r {
            Ok(spaces) => {
                &&& ctx.spec_db()@ != Map::<Seq<char>, Space>::empty()
                &&& unique_names(spaces@)
                &&& map_of(spaces@) == ctx.spec_db()@
            },
            Err(e) => ctx.spec_db()@ == Map::<Seq<char>, Space>::empty() && e
                == DsError::NothingToList,
        },
{
    if ctx.db().is_empty() {
        return Err(DsError::NothingToList);
    }
    Ok(ctx.db().spaces_iter())
}

} // verus!
