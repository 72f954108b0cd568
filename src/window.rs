use vstd::prelude::*;

verus! {

/// The abstract state of a detection window: how many samples it needs, and
/// how many it has been fed so far.
pub struct WindowState {
    pub window_size: nat,
    pub count: nat,
}

impl WindowState {
    /// The state after `n` more samples have been fed.
    pub open spec fn added(self, n: nat) -> WindowState {
        WindowState { window_size: self.window_size, count: self.count + n }
    }

    /// The state after feeding chunks of the given lengths, one after another.
    pub open spec fn added_chunks(self, lens: Seq<nat>) -> WindowState
        decreases lens.len(),
    {
        if lens.len() == 0 {
            self
        } else {
            self.added(lens[0]).added_chunks(lens.drop_first())
        }
    }

    /// The window holds exactly the number of samples it was configured for.
    pub open spec fn is_complete(self) -> bool {
        self.count == self.window_size
    }
}

/// Sum of chunk lengths.
pub open spec fn chunks_total(lens: Seq<nat>) -> nat
    decreases lens.len(),
{
    if lens.len() == 0 {
        0
    } else {
        lens[0] + chunks_total(lens.drop_first())
    }
}

/// The single way a window can fail to finish: it was fed fewer or more
/// samples than its size.
#[derive(Debug, Clone, Copy, PartialEq, Eq)]
pub enum WindowCountMismatch {
    /// Fewer samples than the window size were fed.
    Underfilled { expected: usize, actual: usize },
    /// More samples than the window size were fed.
    Overfilled { expected: usize, actual: usize },
}

/// Sample accounting for one detection window: its configured size and the
/// running count of samples fed into it.
#[derive(Debug, Clone, Copy)]
pub struct SampleWindow {
    window_size: usize,
    count: usize,
}

impl View for SampleWindow {
    type V = WindowState;

    closed spec fn view(&self) -> WindowState {
        WindowState { window_size: self.window_size as nat, count: self.count as nat }
    }
}

impl SampleWindow {
    /// A fresh window of `window_size` samples, with nothing fed yet.
    pub fn new(window_size: usize) -> (r: SampleWindow)
        ensures
            r@ == (WindowState { window_size: window_size as nat, count: 0 }),
    {
        SampleWindow { window_size, count: 0 }
    }

    /// The number of samples the window needs.
    pub fn window_size(&self) -> (r: usize)
        ensures
            r as nat == self@.window_size,
    {
        self.window_size
    }

    /// The number of samples fed so far.
    pub fn count(&self) -> (r: usize)
        ensures
            r as nat == self@.count,
    {
        self.count
    }

    /// Records a chunk of `n` more samples.
    pub fn add(self, n: usize) -> (r: SampleWindow)
        requires
            self@.count + n <= usize::MAX,
        ensures
            r@ == self@.added(n as nat),
    {
        SampleWindow { window_size: self.window_size, count: self.count + n }
    }

    /// Succeeds exactly when the count equals the window size; otherwise
    /// says whether the window was under- or over-filled, and by how much.
    pub fn finish(self) -> (r: Result<(), WindowCountMismatch>)
        ensures
            r is Ok <==> self@.is_complete(),
            self@.count < self@.window_size ==> r == Err::<(), WindowCountMismatch>(
                WindowCountMismatch::Underfilled {
                    expected: self@.window_size as usize,
                    actual: self@.count as usize,
                },
            ),
            self@.count > self@.window_size ==> r == Err::<(), WindowCountMismatch>(
                WindowCountMismatch::Overfilled {
                    expected: self@.window_size as usize,
                    actual: self@.count as usize,
                },
            ),
    {
        if self.count == self.window_size {
            Ok(())
        } else if self.count < self.window_size {
            Err(WindowCountMismatch::Underfilled { expected: self.window_size, actual: self.count })
        } else {
            Err(WindowCountMismatch::Overfilled { expected: self.window_size, actual: self.count })
        }
    }
}

/// Feeding a window in consecutive chunks leaves it in the same state as
/// feeding all of their samples in one call: only the total counts, not how
/// it was split. In particular whether the window can be finished does not
/// depend on the split.
pub proof fn lemma_chunked_count(s: WindowState, lens: Seq<nat>)
    ensures
        s.added_chunks(lens) == s.added(chunks_total(lens)),
        s.added_chunks(lens).is_complete() == s.added(chunks_total(lens)).is_complete(),
    decreases lens.len(),
{
    if lens.len() > 0 {
        lemma_chunked_count(s.added(lens[0]), lens.drop_first());
    }
}

} // verus!
