//! URLs as the engine uses them: opaque, equatable keys whose scheme picks
//! the loader in the resource stage.

use vstd::prelude::*;

verus! {

/// The mathematical value of a [`Url`]: its scheme and the rest of the text.
pub ghost struct UrlView {
    pub scheme: Seq<char>,
    pub rest: Seq<char>,
}

/// A parsed URL, used throughout the engine as a hashable, equatable key.
/// Only the scheme is ever inspected (by the resource stage); the rest is
/// carried as opaque text.
pub struct Url {
    pub scheme: String,
    pub rest: String,
}

impl View for Url {
    type V = UrlView;

    open spec fn view(&self) -> UrlView {
        UrlView { scheme: self.scheme@, rest: self.rest@ }
    }
}

impl Url {
    pub fn new(scheme: String, rest: String) -> (url: Url)
        ensures
            url@ == (UrlView { scheme: scheme@, rest: rest@ }),
    {
        Url { scheme, rest }
    }

    /// Equality on the full URL text.
    pub fn eq_url(&self, other: &Url) -> (r: bool)
        ensures
            r == (self@ == other@),
    {
        let r = self.scheme == other.scheme && self.rest == other.rest;
        proof {
            if self@.scheme == other@.scheme && self@.rest == other@.rest {
                assert(self@ == other@);
            }
        }
        r
    }
}

impl Clone for Url {
    fn clone(&self) -> (r: Url)
        ensures
            r@ == self@,
    {
        Url { scheme: self.scheme.clone(), rest: self.rest.clone() }
    }
}

} // verus!
