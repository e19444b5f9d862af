//! Argument shapes of the commands that the front end invokes.

use vstd::prelude::*;

use crate::{PanelOptions, Rect};

verus! {

/// Argument body of the `create_panel` command: the same fields as
/// [`PanelOptions`], as the front end sends them.
#[derive(Debug, Clone)]
pub struct CreatePanelArgs {
    pub id: String,
    pub url: String,
    pub bounds: Rect,
    pub interactive: bool,
    pub z_index: i32,
}

impl From<CreatePanelArgs> for PanelOptions {
    fn from(args: CreatePanelArgs) -> (opts: PanelOptions)
        ensures
            opts.id == args.id,
            opts.url == args.url,
            opts.bounds == args.bounds,
            opts.interactive == args.interactive,
            opts.z_index == args.z_index,
    {
        PanelOptions {
            id: args.id,
            url: args.url,
            bounds: args.bounds,
            interactive: args.interactive,
            z_index: args.z_index,
        }
    }
}

impl vstd::std_specs::convert::FromSpecImpl<CreatePanelArgs> for PanelOptions {
    open spec fn obeys_from_spec() -> bool {
        true
    }

    open spec fn from_spec(args: CreatePanelArgs) -> PanelOptions {
        PanelOptions {
            id: args.id,
            url: args.url,
            bounds: args.bounds,
            interactive: args.interactive,
            z_index: args.z_index,
        }
    }
}


/// The conversion keeps every field: the id, the url, the bounds, whether
/// the panel takes input and its stacking order are those sent.
pub proof fn lemma_panel_options_keep_every_field(args: CreatePanelArgs)
    ensures
        <PanelOptions as vstd::std_specs::convert::FromSpec<CreatePanelArgs>>::obeys_from_spec(),
        ({
            let opts = <PanelOptions as vstd::std_specs::convert::FromSpec<CreatePanelArgs>>::from_spec(args);
            &&& opts.id == args.id
            &&& opts.url == args.url
            &&& opts.bounds == args.bounds
            &&& opts.bounds.x == args.bounds.x && opts.bounds.y == args.bounds.y
            &&& opts.bounds.w == args.bounds.w && opts.bounds.h == args.bounds.h
            &&& opts.interactive == args.interactive
            &&& opts.z_index == args.z_index
        }),
{
}

} // verus!
