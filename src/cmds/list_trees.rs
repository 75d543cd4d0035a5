//! The `list-trees` command.
use vstd::prelude::*;

use crate::config::SpaceTree;
use crate::context::Context;
use crate::entries::{map_of, unique_names};
use crate::DsError;

verus! {

/// The trees to list, each name once; listing no tree is an error.
pub fn command(ctx: &Context) -> (r: Result<&Vec<(String, SpaceTree)>, DsError>)
    requires
        ctx.wf(),
    ensures
        match r {
            Ok(trees) => {
                &&& ctx.spec_config().trees() != Map::<Seq<char>, SpaceTree>::empty()
                &&& unique_names(trees@)
                &&& map_of(trees@) == ctx.spec_config().trees()
            },
            Err(e) => ctx.spec_config().trees() == Map::<Seq<char>, SpaceTree>::empty() && e
                == DsError::NothingToList,
        },
{
    if ctx.config().is_empty_trees() {
        return Err(DsError::NothingToList);
    }
    Ok(ctx.config().trees_iter())
}

} // verus!
