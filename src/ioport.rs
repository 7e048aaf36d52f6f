use vstd::prelude::*;

use crate::mem::Mem;

verus! {

/// A controller port: it always reads the same value and ignores writes.
#[derive(PartialEq, Eq, Structural)]
pub struct IoPort {
    /// The value every read returns.
    pub dummy: u8,
}

impl IoPort {
    pub open spec fn value(&self) -> u8 {
        self.dummy
    }

    /// A port that reads as 0.
    pub fn new() -> (r: IoPort)
        ensures
            r.value() == 0,
    {
        IoPort { dummy: 0 }
    }
}

impl Mem for IoPort {
    open spec fn peek(&self, addr: u16) -> u8 {
        self.value()
    }

    open spec fn written(&self, addr: u16, val: u8, post: Self) -> bool {
        post == *self
    }

    fn loadb(&mut self, addr: u16) -> (r: u8) {
        self.dummy
    }

    fn storeb(&mut self, addr: u16, val: u8) {
    }
}

} // verus!
