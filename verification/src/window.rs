//! The hook through which a host window takes the title-bar style of the
//! application.

use vstd::prelude::*;

verus! {

/// A window whose title bar can be made transparent. The host implements it
/// for its own window type; the effect lies with the platform, so nothing is
/// stated of it here.
pub trait WindowExt {
    /// Makes the title bar transparent or opaque, and hides the window's
    /// standard buttons where `remove_toolbar` is set.
    fn set_transparent_titlebar(&self, title_transparent: bool, remove_toolbar: bool);
}

} // verus!
