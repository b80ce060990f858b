//! The load context: bevy's per-request channel through which a loader hands
//! over what it made of a file.

use vstd::prelude::*;
use bevy::asset::{Asset, LoadContext, LoadedAsset};
use crate::decode::DecodeError;

verus! {

/// `bevy::asset::LoadContext`, which collects the assets of one load request
/// under their labels. The file's main asset has no label.
#[verifier::external_type_specification]
#[verifier::external_body]
pub struct ExLoadContext<'a>(LoadContext<'a>);

/// The labels under which the context holds an asset. `None` is the label of
/// the default asset.
pub uninterp spec fn labels(context: LoadContext) -> Set<Option<Seq<char>>>;

/// Calls `LoadContext::set_default_asset` with `LoadedAsset::new(value)`,
/// which puts `value`, without dependencies, under the label of the default
/// asset, in place of what was there. The contract states what this does to
/// the labels: that of the default asset is added and no other changes. Of
/// the asset itself it states nothing.
#[verifier::external_body]
fn set_default_asset<T: Asset>(context: &mut LoadContext, value: T)
    ensures
        labels(*final(context)) == labels(*old(context)).insert(None),
{
    context.set_default_asset(LoadedAsset::new(value));
}

/// Reports what a file decoded to: a decoded value becomes the default asset
/// of the context; a failure is passed on and leaves the context as it was.
pub fn report<T: Asset>(
    decoded: Result<T, DecodeError>,
    context: &mut LoadContext,
) -> (reported: Result<(), DecodeError>)
    ensures
        match decoded {
            Ok(_) => {
                &&& reported == Ok::<(), DecodeError>(())
                &&& labels(*final(context)) == labels(*old(context)).insert(None)
            },
            Err(error) => {
                &&& reported == Err::<(), DecodeError>(error)
                &&& *final(context) == *old(context)
            },
        },
{
    match decoded {
        Ok(value) => {
            set_default_asset(context, value);
            Ok(())
        },
        Err(error) => Err(error),
    }
}

} // verus!
