//! What the router keeps.

use vstd::prelude::*;

verus! {

#[derive(Debug, PartialEq, Eq)]
pub struct Config {
    /// The factory that knows the trading pairs, in canonical form.
    pub cyberswap_factory: Vec<u8>,
}

impl View for Config {
    type V = Seq<u8>;

    open spec fn view(&self) -> Seq<u8> {
        self.cyberswap_factory@
    }
}

} // verus!
