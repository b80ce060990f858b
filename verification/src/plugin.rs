//! The plugin: what an application adds to register one asset type.

use vstd::prelude::*;
use vstd::slice::slice_to_vec;
use std::marker::PhantomData;
use crate::extensions::names;
use crate::loader::RonLoader;

verus! {

/// Plugin to register a single asset type into an application.
///
/// Create and register as many instances as there are asset types, each with
/// extensions of its own.
pub struct RonAssetPlugin<T> {
    extensions: Vec<&'static str>,
    _t: PhantomData<T>,
}

impl<T> View for RonAssetPlugin<T> {
    type V = Seq<Seq<char>>;

    /// The extensions that the plugin was created with, in their order.
    closed spec fn view(&self) -> Seq<Seq<char>> {
        names(self.extensions@)
    }
}

impl<T> RonAssetPlugin<T> {
    /// Create a new plugin instance for a custom RON asset type.
    ///
    /// Files with the provided `extensions` will be loaded as an asset of the
    /// provided type `T`, using serde with the RON deserializer.
    pub fn new(extensions: &[&'static str]) -> (plugin: Self)
        ensures
            plugin@ == names(extensions@),
    {
        RonAssetPlugin { extensions: slice_to_vec(extensions), _t: PhantomData }
    }

    /// The loader that installing the plugin binds to the application: one
    /// for type `T`, with the plugin's extensions.
    pub fn loader(&self) -> (loader: RonLoader<T>)
        ensures
            loader@ == self@,
    {
        RonLoader::new(self.extensions.as_slice())
    }
}

/// Every extension that a plugin was created with is among the extensions of
/// the loader that the plugin binds.
pub proof fn lemma_declared_extensions_are_handled<T>(
    declared: Seq<&'static str>,
    plugin: RonAssetPlugin<T>,
    loader: RonLoader<T>,
    position: int,
)
    requires
        plugin@ == names(declared),
        loader@ == plugin@,
        0 <= position < declared.len(),
    ensures
        loader.handles(declared[position]@),
{
    assert(loader@[position] == declared[position]@);
}

} // verus!
