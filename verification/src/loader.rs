//! A restartable cursor over a factory's list of bytecode.

use vstd::prelude::*;
use std::sync::Arc;

verus! {

/// The bytes of each blob of a code list, in the list's order.
pub open spec fn codes_view(codes: Seq<Arc<Vec<u8>>>) -> Seq<Seq<u8>> {
    Seq::new(codes.len(), |i: int| codes[i]@)
}

/// Calls `Arc::clone`: a second handle to the same blob.
#[verifier::external_body]
pub(crate) fn share_code(code: &Arc<Vec<u8>>) -> (shared: Arc<Vec<u8>>)
    ensures
        shared == *code,
{
    Arc::clone(code)
}

/// Copies a code list, sharing each blob.
pub(crate) fn share_codes(codes: &Vec<Arc<Vec<u8>>>) -> (shared: Vec<Arc<Vec<u8>>>)
    ensures
        shared@ == codes@,
{
    let mut shared: Vec<Arc<Vec<u8>>> = Vec::new();
    let mut i: usize = 0;
    while i < codes.len()
        invariant
            i <= codes.len(),
            shared@ == codes@.subrange(0, i as int),
        decreases codes.len() - i,
    {
        shared.push(share_code(&codes[i]));
        i += 1;
    }
    shared
}

/// A cursor over a fixed list of bytecode: the blobs before `offset` have
/// been handed out, those from `offset` up to `top` are still to come.
#[derive(Clone)]
pub struct VMFactoryLoader {
    offset: usize,
    top: usize,
    codes: Vec<Arc<Vec<u8>>>,
}

impl VMFactoryLoader {
    /// How many blobs have been handed out.
    pub closed spec fn offset(&self) -> nat {
        self.offset as nat
    }

    /// How many blobs there are; fixed when the loader is made.
    pub closed spec fn top(&self) -> nat {
        self.top as nat
    }

    /// The code list.
    pub closed spec fn codes(&self) -> Seq<Seq<u8>> {
        codes_view(self.codes@)
    }

    /// The cursor lies within the list, and `top` is the list's length.
    pub closed spec fn wf(&self) -> bool {
        self.offset <= self.top && self.top == self.codes@.len()
    }

    /// Whether every blob has been handed out.
    pub open spec fn exhausted(&self) -> bool {
        self.offset() >= self.top()
    }

    /// A loader at the start of `codes`.
    pub fn new(codes: Vec<Arc<Vec<u8>>>) -> (loader: VMFactoryLoader)
        ensures
            loader.wf(),
            loader.offset() == 0,
            loader.top() == codes@.len(),
            loader.codes() == codes_view(codes@),
    {
        VMFactoryLoader { offset: 0, top: codes.len(), codes }
    }

    /// Hands out the next blob to load and moves past it, or returns `None`
    /// and changes nothing when every blob has been handed out. The caller
    /// loads the blob into its engine and waits until the engine has run it;
    /// the cursor has moved on whether or not the engine accepts the blob.
    pub fn load_next(&mut self) -> (next: Option<Arc<Vec<u8>>>)
        requires
            old(self).wf(),
        ensures
            final(self).wf(),
            final(self).top() == old(self).top(),
            final(self).codes() == old(self).codes(),
            old(self).exhausted() ==> next is None && final(self).offset() == old(self).offset()
                && final(self).exhausted(),
            !old(self).exhausted() ==> (next matches Some(code) && code@ == old(self).codes()[
                old(self).offset() as int
            ]) && final(self).offset() == old(self).offset() + 1,
    {
        if self.offset >= self.top {
            return None;
        }
        let code = share_code(&self.codes[self.offset]);
        self.offset += 1;
        Some(code)
    }

    /// Whether a blob is still to come.
    pub fn has_next(&self) -> (more: bool)
        ensures
            more == !self.exhausted(),
    {
        self.offset < self.top
    }
}

} // verus!
