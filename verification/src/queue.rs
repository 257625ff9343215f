//! The ordered working set of decoded bitmaps.
//!
//! Bitmaps are appended in arrival order and never reordered or removed; a
//! `current` pointer selects the image being displayed. Selecting an index
//! beyond the end is rejected and leaves the pointer unchanged.

use crate::bitmap::Bitmap;
use vstd::prelude::*;

verus! {

/// An ordered, index-addressable collection of decoded bitmaps plus the
/// index of the currently displayed one.
pub struct BitmapQueue {
    pub items: Vec<Bitmap>,
    pub current_index: usize,
}

impl BitmapQueue {
    /// The current index stays in bounds once the queue is non-empty (it
    /// is zero while the queue is empty), and every held bitmap is
    /// well-formed.
    pub open spec fn wf(self) -> bool {
        &&& (self.items@.len() == 0 ==> self.current_index == 0)
        &&& (self.items@.len() > 0 ==> self.current_index < self.items@.len())
        &&& forall|i: int| 0 <= i < self.items@.len() ==> (#[trigger] self.items@[i]).wf()
    }

    /// An empty queue with the current pointer at zero.
    pub fn new() -> (r: BitmapQueue)
        ensures
            r.wf(),
            r.items@.len() == 0,
            r.current_index == 0,
    {
        BitmapQueue { items: Vec::new(), current_index: 0 }
    }

    /// Append one bitmap at the end; nothing else moves.
    pub fn push_back(&mut self, bitmap: Bitmap)
        requires
            old(self).wf(),
            bitmap.wf(),
        ensures
            final (self).wf(),
            final (self).items@ == old(self).items@.push(bitmap),
            final (self).current_index == old(self).current_index,
    {
        self.items.push(bitmap);
    }

    /// Move all bitmaps of one ingestion batch to the end of the queue,
    /// preserving their arrival order; the current pointer is untouched.
    pub fn drain_into_queue(&mut self, batch: Vec<Bitmap>)
        requires
            old(self).wf(),
            forall|i: int| 0 <= i < batch@.len() ==> (#[trigger] batch@[i]).wf(),
        ensures
            final (self).wf(),
            final (self).items@ == old(self).items@ + batch@,
            final (self).current_index == old(self).current_index,
    {
        let mut incoming = batch;
        self.items.append(&mut incoming);
    }

    /// Select the bitmap at `index` as current. An index at or beyond the
    /// end is rejected: the call returns `false` and the current pointer is
    /// unchanged, never clamped.
    pub fn set_current(&mut self, index: usize) -> (ok: bool)
        requires
            old(self).wf(),
        ensures
            final (self).wf(),
            final (self).items@ == old(self).items@,
            ok <==> index < old(self).items@.len(),
            ok ==> final (self).current_index == index,
            !ok ==> final (self).current_index == old(self).current_index,
    {
        if index < self.items.len() {
            self.current_index = index;
            true
        } else {
            false
        }
    }

    /// The number of bitmaps held.
    pub fn len(&self) -> (r: usize)
        ensures
            r == self.items@.len(),
    {
        self.items.len()
    }

    /// Whether the queue holds no bitmap yet.
    pub fn is_empty(&self) -> (r: bool)
        ensures
            r <==> self.items@.len() == 0,
    {
        self.items.len() == 0
    }

    /// The currently selected bitmap.
    pub fn current(&self) -> (r: &Bitmap)
        requires
            self.wf(),
            self.items@.len() > 0,
        ensures
            r == self.items@[self.current_index as int],
            r.wf(),
    {
        &self.items[self.current_index]
    }

    /// The bitmap at `index`.
    pub fn get(&self, index: usize) -> (r: &Bitmap)
        requires
            self.wf(),
            index < self.items@.len(),
        ensures
            r == self.items@[index as int],
            r.wf(),
    {
        &self.items[index]
    }
}

} // verus!
