//! The two encoders. They differ only in the rendering they ask of an item.

use crate::buffer::{buffer_bytes, view_of};
use crate::error::Error;
use crate::line::{encoded, rendering_view, write_rendered};
use crate::render::{render_debug, render_display};
use bytes::BytesMut;
use std::fmt::{Debug, Display};
use std::marker::PhantomData;
use vstd::prelude::*;

verus! {

/// Encode items that implement `Debug`, separated by newlines.
pub struct DebugEncoder<I> {
    _i: PhantomData<I>,
}

/// Encode items that implement `Display`, separated by newlines.
pub struct DisplayEncoder<I> {
    _i: PhantomData<I>,
}

impl<I> DebugEncoder<I> {
    /// The one value of this type: an encoder holds no state, only the type of
    /// the items it takes.
    pub closed spec fn stateless() -> Self {
        DebugEncoder { _i: PhantomData }
    }

    /// Every encoder is the same encoder, so none can remember what it was
    /// used for before.
    pub proof fn lemma_stateless(self)
        ensures
            self == Self::stateless(),
    {
    }
}

impl<I> Default for DebugEncoder<I> {
    fn default() -> (r: Self)
        ensures
            r == Self::stateless(),
    {
        DebugEncoder { _i: PhantomData }
    }
}

impl<I: Debug> DebugEncoder<I> {
    /// Renders `item` with `{:?}` and appends the text, then a line feed, to
    /// `dst`, which is grown where it lacks the room.
    ///
    /// The encoder itself is left as it was. What is returned and what becomes
    /// of `dst` is what [`encoded`] says for some outcome of the rendering:
    /// which text an item renders to, or whether rendering it fails, is up to
    /// the item's `Debug` implementation. Whatever that outcome, an error is
    /// never [`Error::Io`].
    pub fn encode(&mut self, item: I, dst: &mut BytesMut) -> (res: Result<(), Error>)
        ensures
            *final(self) == *old(self),
            exists|rendered: Result<Seq<char>, std::fmt::Error>| #[trigger]
                encoded(rendered, view_of(*old(dst)), res, buffer_bytes(*final(dst))),
            res matches Err(e) ==> e is Fmt,
    {
        let rendered = render_debug(&item);
        let ghost shown = rendering_view(rendered);
        let res = write_rendered(rendered, dst);
        assert(encoded(shown, view_of(*old(dst)), res, buffer_bytes(*dst)));
        res
    }
}

impl<I> DisplayEncoder<I> {
    /// The one value of this type: an encoder holds no state, only the type of
    /// the items it takes.
    pub closed spec fn stateless() -> Self {
        DisplayEncoder { _i: PhantomData }
    }

    /// Every encoder is the same encoder, so none can remember what it was
    /// used for before.
    pub proof fn lemma_stateless(self)
        ensures
            self == Self::stateless(),
    {
    }
}

impl<I> Default for DisplayEncoder<I> {
    fn default() -> (r: Self)
        ensures
            r == Self::stateless(),
    {
        DisplayEncoder { _i: PhantomData }
    }
}

impl<I: Display> DisplayEncoder<I> {
    /// Renders `item` with `{}` and appends the text, then a line feed, to
    /// `dst`, which is grown where it lacks the room.
    ///
    /// The encoder itself is left as it was. What is returned and what becomes
    /// of `dst` is what [`encoded`] says for some outcome of the rendering:
    /// which text an item renders to, or whether rendering it fails, is up to
    /// the item's `Display` implementation. Whatever that outcome, an error is
    /// never [`Error::Io`].
    pub fn encode(&mut self, item: I, dst: &mut BytesMut) -> (res: Result<(), Error>)
        ensures
            *final(self) == *old(self),
            exists|rendered: Result<Seq<char>, std::fmt::Error>| #[trigger]
                encoded(rendered, view_of(*old(dst)), res, buffer_bytes(*final(dst))),
            res matches Err(e) ==> e is Fmt,
    {
        let rendered = render_display(&item);
        let ghost shown = rendering_view(rendered);
        let res = write_rendered(rendered, dst);
        assert(encoded(shown, view_of(*old(dst)), res, buffer_bytes(*dst)));
        res
    }
}

} // verus!
