//! The frame counter shared with the kernel.
use vstd::prelude::*;
use crate::layout::{cast_words, words_bytes};

verus! {

/// Bytes of the global uniform: one word.
pub const GLOBAL_UNIFORM_SIZE: usize = 4;

/// The frame counter as the kernel sees it: one `u32`.
#[derive(Debug, Clone, Copy, PartialEq, Eq, Structural)]
pub struct GlobalUniform {
    pub timestamp: u32,
}

impl GlobalUniform {
    /// A counter at frame zero.
    pub fn new() -> (r: Self)
        ensures
            r.timestamp == 0,
    {
        Self { timestamp: 0 }
    }
}

/// The host side of the global clock: it advances once per frame and its
/// bytes are written to the global buffer each time.
pub struct GlobalState {
    pub uniform: GlobalUniform,
}

impl GlobalState {
    /// A clock at frame zero.
    pub fn new() -> (r: Self)
        ensures
            r.uniform.timestamp == 0,
    {
        Self { uniform: GlobalUniform::new() }
    }

    /// Advances the clock by one frame.
    pub fn update(&mut self)
        requires
            old(self).uniform.timestamp < u32::MAX,
        ensures
            final(self).uniform.timestamp == old(self).uniform.timestamp + 1,
    {
        self.uniform.timestamp = self.uniform.timestamp + 1;
    }

    /// The bytes of the global buffer: the counter as one word.
    pub fn bytes(&self) -> (r: Vec<u8>)
        ensures
            exists|little: bool| r@ == #[trigger] words_bytes(seq![self.uniform.timestamp], little),
            r@.len() == GLOBAL_UNIFORM_SIZE,
    {
        let words = vec![self.uniform.timestamp];
        proof {
            assert(words@ =~= seq![self.uniform.timestamp]);
        }
        cast_words(words.as_slice())
    }
}

} // verus!
