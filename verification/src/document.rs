use vstd::prelude::*;

verus! {

/// A replacement span: the document's units from `start` to `old_end`
/// were replaced by units running from `start` to `new_end`. Emitted only
/// for an actual successful mutation.
#[derive(Clone, Copy, PartialEq, Eq, Debug, Structural)]
pub struct TextChangeEvent {
    pub start: usize,
    pub old_end: usize,
    pub new_end: usize,
}

/// The formatting classification of a run. This store has no formatting
/// model, so the whole buffer is always reported as one plain run.
#[derive(Clone, Copy, PartialEq, Eq, Debug, Structural)]
pub enum RunKind {
    Plain,
}

/// One maximal span of text sharing a formatting classification.
#[derive(Clone, Copy, PartialEq, Eq, Debug, Structural)]
pub struct RunInfo {
    pub kind: RunKind,
    pub count: usize,
}

/// What a read hands back: the copied units, one run description
/// covering the whole content, and the offset following it.
pub struct ReadOutcome {
    pub copied: Vec<u8>,
    pub run: RunInfo,
    pub next_offset: usize,
}

/// Owns the text content: an ordered sequence of text units, mutated
/// only as a whole-buffer replacement.
pub struct SharedDocument {
    pub content: Vec<u8>,
}

impl View for SharedDocument {
    type V = Seq<u8>;

    open spec fn view(&self) -> Seq<u8> {
        self.content@
    }
}

/// The change a whole-buffer replacement reports: the span from offset 0
/// to the old length was replaced by one reaching the new length.
pub open spec fn replace_event(old_len: nat, new_len: nat) -> TextChangeEvent {
    TextChangeEvent { start: 0, old_end: old_len as usize, new_end: new_len as usize }
}

/// Where a read's copy begins: at `start`, clamped to the content's end.
pub open spec fn spec_copy_start(text: Seq<u8>, start: usize) -> int {
    if start <= text.len() {
        start as int
    } else {
        text.len() as int
    }
}

/// How many units a read copies: `min(content_length, max_len)`,
/// truncated to what remains after the copy's starting point.
pub open spec fn spec_copy_len(text: Seq<u8>, start: usize, max_len: usize) -> int {
    let cap = if text.len() <= max_len {
        text.len() as int
    } else {
        max_len as int
    };
    let avail = text.len() - spec_copy_start(text, start);
    if cap <= avail {
        cap
    } else {
        avail
    }
}

/// The units a read of `max_len` at `start` copies out of `text`.
pub open spec fn spec_read_window(text: Seq<u8>, start: usize, max_len: usize) -> Seq<u8> {
    text.subrange(
        spec_copy_start(text, start),
        spec_copy_start(text, start) + spec_copy_len(text, start, max_len),
    )
}

impl SharedDocument {
    /// An empty document.
    pub fn new() -> (doc: SharedDocument)
        ensures
            doc@ == Seq::<u8>::empty(),
    {
        SharedDocument { content: Vec::new() }
    }

    /// The tracked length of the content.
    pub fn len(&self) -> (n: usize)
        ensures
            n == self@.len(),
    {
        self.content.len()
    }

    /// Copies `min(content_length, max_len)` units starting at `start`
    /// (clamped to the content), reports the whole content as one plain
    /// run, and names the offset after the content as the next one.
    ///
    /// Holding the required lock is the caller's business: the store's
    /// facade refuses a read before it reaches this point.
    pub fn read_range(&self, start: usize, max_len: usize) -> (out: ReadOutcome)
        requires
            start + self@.len() <= usize::MAX,
        ensures
            out.copied@ == spec_read_window(self@, start, max_len),
            (out.run == RunInfo { kind: RunKind::Plain, count: self@.len() as usize }),
            out.next_offset == start + self@.len(),
    {
        let len = self.content.len();
        let from: usize = if start <= len { start } else { len };
        let cap: usize = if len <= max_len { len } else { max_len };
        let avail: usize = len - from;
        let count: usize = if cap <= avail { cap } else { avail };

        let mut copied: Vec<u8> = Vec::new();
        let mut i: usize = 0;
        while i < count
            invariant
                i <= count,
                self@.len() <= usize::MAX,
                from + count <= self@.len(),
                count == spec_copy_len(self@, start, max_len),
                from == spec_copy_start(self@, start),
                copied@ == self@.subrange(from as int, from + i),
            decreases count - i,
        {
            copied.push(self.content[from + i]);
            i = i + 1;
            proof {
                assert(copied@ =~= self@.subrange(from as int, from + i));
            }
        }

        ReadOutcome {
            copied,
            run: RunInfo { kind: RunKind::Plain, count: len },
            next_offset: start + len,
        }
    }

    /// Replaces the whole content with `new_text` and reports the span
    /// that changed: offset 0 up to the old length, now reaching the new
    /// length.
    pub fn replace(&mut self, new_text: Vec<u8>) -> (change: TextChangeEvent)
        ensures
            final(self)@ == new_text@,
            (change == replace_event(old(self)@.len(), new_text@.len())),
    {
        let old_len = self.content.len();
        self.content = new_text;
        TextChangeEvent { start: 0, old_end: old_len, new_end: self.content.len() }
    }
}

} // verus!
