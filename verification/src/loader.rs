//! The loader: a list of file extensions bound to one asset type.

use vstd::prelude::*;
use vstd::slice::slice_to_vec;
use std::marker::PhantomData;
use bevy::asset::{Asset, LoadContext};
use crate::context::{labels, report};
use crate::decode::{settle, DecodeError};
use crate::extensions::{disjoint, includes, names};

verus! {

/// Loads files with one of its extensions as assets of type `T`.
///
/// A loader holds nothing but its extensions, which never change, so one
/// loader serves any number of loads, one after another or at once.
pub struct RonLoader<T> {
    extensions: Vec<&'static str>,
    _t: PhantomData<T>,
}

impl<T> View for RonLoader<T> {
    type V = Seq<Seq<char>>;

    /// The loader's extensions, in the order in which they were given.
    closed spec fn view(&self) -> Seq<Seq<char>> {
        names(self.extensions@)
    }
}

impl<T> RonLoader<T> {
    /// Whether the extension is among the loader's extensions.
    pub open spec fn handles(&self, extension: Seq<char>) -> bool {
        self@.contains(extension)
    }

    /// A loader for files with the given extensions.
    pub fn new(extensions: &[&'static str]) -> (loader: Self)
        ensures
            loader@ == names(extensions@),
            forall|i: int| 0 <= i < extensions@.len() ==> loader.handles(#[trigger] extensions@[i]@),
    {
        let loader = RonLoader { extensions: slice_to_vec(extensions), _t: PhantomData };
        assert forall|i: int| 0 <= i < extensions@.len() implies loader.handles(
            #[trigger] extensions@[i]@,
        ) by {
            assert(loader@[i] == extensions@[i]@);
        }
        loader
    }

    /// The loader's extensions, in the order in which they were given.
    pub fn extensions(&self) -> (list: &[&'static str])
        ensures
            names(list@) == self@,
    {
        self.extensions.as_slice()
    }

    /// Whether the extension is among the loader's extensions.
    pub fn recognizes(&self, extension: &str) -> (found: bool)
        ensures
            found == self.handles(extension@),
    {
        includes(self.extensions.as_slice(), extension)
    }

    /// Takes what the RON decoder made of a file's bytes and reports it: a
    /// decoded value is handed to the load context as the file's default
    /// asset; the decoder's error comes back in a `DecodeError`, and the
    /// context stays as it was. Either way the load makes one report and no
    /// more: the default asset, or the error.
    pub fn load(&self, outcome: Result<T, ron::Error>, load_context: &mut LoadContext) -> (loaded:
        Result<(), DecodeError>)
        where
            T: Asset,
        ensures
            match outcome {
                Ok(_) => {
                    &&& loaded == Ok::<(), DecodeError>(())
                    &&& labels(*final(load_context)) == labels(*old(load_context)).insert(None)
                },
                Err(error) => {
                    &&& loaded == Err::<(), DecodeError>((DecodeError { source: error }))
                    &&& *final(load_context) == *old(load_context)
                },
            },
    {
        report(settle(outcome), load_context)
    }
}

/// Two loaders whose extension lists are disjoint handle no extension in
/// common: whatever the extension, at most one of the two lists holds it.
pub proof fn lemma_disjoint_loaders_share_no_extension<A, B>(
    first: RonLoader<A>,
    second: RonLoader<B>,
    extension: Seq<char>,
)
    requires
        disjoint(first@, second@),
    ensures
        !(first.handles(extension) && second.handles(extension)),
{
}

} // verus!
