use vstd::prelude::*;

use crate::mem::Mem;

verus! {

/// The picture unit's register window, as the processor sees it: the rendering
/// pipeline behind it is not modelled, so every register reads as 0 and writes are
/// dropped.
#[derive(PartialEq, Eq, Structural)]
pub struct Ppu {}

impl Ppu {
    pub fn new() -> (r: Ppu) {
        Ppu {}
    }
}

impl Mem for Ppu {
    open spec fn peek(&self, addr: u16) -> u8 {
        0
    }

    open spec fn written(&self, addr: u16, val: u8, post: Self) -> bool {
        post == *self
    }

    fn loadb(&mut self, addr: u16) -> (r: u8) {
        0
    }

    fn storeb(&mut self, addr: u16, val: u8) {
    }
}

} // verus!
