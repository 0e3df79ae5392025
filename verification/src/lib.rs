//! A verified core for rendering a terminal-style grid of styled character
//! cells into a tree of styled text runs, together with a touch-gesture
//! scroll recognizer.
//!
//! The pipeline mirrors a terminal backend for a browser-hosted UI: a
//! drawing engine fills a [`backend::TermBackend`] cell grid, the backend
//! compresses each row into style-homogeneous runs, and a hydration pass
//! resolves interactive runs through an application-supplied
//! [`backend::Hydrator`] before producing renderable span nodes. The
//! host-specific glue (DOM sizing, event wiring, HTML construction) lives
//! outside this crate and exchanges plain values with it.

use vstd::prelude::*;

pub mod backend;
pub mod cell;
pub mod css;
pub mod palette;
pub mod span;
pub mod style;
pub mod touch;

use crate::touch::ScrollMotion;

verus! {

/// The message type a hosting terminal component routes through its update
/// loop: either an application message, a viewport resize notification, or
/// a discrete scroll tick.
pub enum WebTermMessage<M> {
    Inner(M),
    Resized,
    Scrolled(ScrollMotion),
}

impl<M> WebTermMessage<M> {
    /// Wraps an application message.
    pub fn new<I: Into<M>>(inner: I) -> (r: Self)
        ensures
            r is Inner,
            <I as vstd::std_specs::convert::IntoSpec<M>>::obeys_into_spec() ==> r
                == WebTermMessage::Inner(
                <I as vstd::std_specs::convert::IntoSpec<M>>::into_spec(inner),
            ),
    {
        Self::Inner(inner.into())
    }
}

impl<M> From<M> for WebTermMessage<M> {
    fn from(value: M) -> (r: Self)
        ensures
            r == WebTermMessage::<M>::Inner(value),
    {
        Self::Inner(value)
    }
}

impl<M> vstd::std_specs::convert::FromSpecImpl<M> for WebTermMessage<M> {
    open spec fn obeys_from_spec() -> bool {
        true
    }

    open spec fn from_spec(v: M) -> Self {
        WebTermMessage::Inner(v)
    }
}

/// The properties a hosting component is created with: the wrapped
/// application value.
pub struct WebTermProps<M: PartialEq> {
    pub inner: M,
}

impl<M: PartialEq> WebTermProps<M> {
    /// Wraps an application value as component properties.
    pub fn new(inner: M) -> (r: Self)
        ensures
            r.inner == inner,
    {
        Self { inner }
    }
}

} // verus!
