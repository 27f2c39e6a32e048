//! Browser-style navigation history over visited session names.
//!
//! The history is an append-mostly stack of session names plus an optional
//! cursor. While the cursor is absent the user is at the present, untracked
//! position; the first backward step bookmarks the session being left so a
//! later forward step can return to it.
use vstd::prelude::*;

verus! {

/// Ordered record of visited session names, oldest first, with an optional
/// cursor into it. A cursor of `None` means no backward/forward navigation is
/// in progress.
#[derive(Debug)]
pub struct SessionHistory {
    stack: Vec<String>,
    head: Option<usize>,
}

/// What one backward step does: from `(stack, head)`, with `session` the name
/// of the session being left, the new stack, the new cursor, and the name
/// navigated to (`None` when there is nowhere to go back to).
///
/// The first backward step (cursor absent, stack non-empty) appends `session`
/// as a bookmark and lands the cursor on the entry that was last before the
/// bookmark; later steps only move the cursor.
pub open spec fn prev_step(stack: Seq<String>, head: Option<int>, session: String) -> (
    Seq<String>,
    Option<int>,
    Option<String>,
) {
    match head {
        Some(i) => if i > 0 {
            (stack, Some(i - 1), Some(stack[i - 1]))
        } else {
            (stack, head, None::<String>)
        },
        None => if stack.len() > 0 {
            (stack.push(session), Some(stack.len() - 1), Some(stack.last()))
        } else {
            (stack, head, None::<String>)
        },
    }
}

/// What one forward step does: the cursor moves up one entry and that entry
/// is returned, or nothing happens at the last entry or while no navigation
/// is in progress.
pub open spec fn next_step(stack: Seq<String>, head: Option<int>) -> (
    Seq<String>,
    Option<int>,
    Option<String>,
) {
    match head {
        Some(i) => if i + 1 < stack.len() {
            (stack, Some(i + 1), Some(stack[i + 1]))
        } else {
            (stack, head, None::<String>)
        },
        None => (stack, head, None::<String>),
    }
}

/// What a reset does: a present cursor at `i` discards every entry from `i`
/// on and clears the cursor; an absent cursor leaves everything unchanged.
pub open spec fn truncate_step(stack: Seq<String>, head: Option<int>) -> (
    Seq<String>,
    Option<int>,
) {
    match head {
        Some(i) => (stack.take(i), None::<int>),
        None => (stack, head),
    }
}

impl SessionHistory {
    /// The recorded session names, oldest first.
    pub closed spec fn entries(&self) -> Seq<String> {
        self.stack@
    }

    /// The cursor into `entries`, if navigation is in progress.
    pub closed spec fn cursor(&self) -> Option<int> {
        match self.head {
            Some(i) => Some(i as int),
            None => None::<int>,
        }
    }

    /// A cursor, when present, points at an existing entry.
    pub open spec fn wf(&self) -> bool {
        self.cursor() matches Some(i) ==> 0 <= i < self.entries().len()
    }

    /// A fresh history: no entries, no cursor.
    pub fn new() -> (r: SessionHistory)
        ensures
            r.entries() == Seq::<String>::empty(),
            r.cursor() is None,
            r.wf(),
    {
        SessionHistory { stack: Vec::new(), head: None }
    }

    /// Rebuild a history from plain parts, e.g. one read back from storage.
    /// A cursor that does not point at an entry is rejected.
    pub fn from_parts(stack: Vec<String>, head: Option<usize>) -> (r: Option<SessionHistory>)
        ensures
            match r {
                Some(h) => {
                    &&& h.wf()
                    &&& h.entries() == stack@
                    &&& h.cursor() == match head {
                        Some(i) => Some(i as int),
                        None => None::<int>,
                    }
                },
                None => head matches Some(i) && i >= stack@.len(),
            },
    {
        match head {
            Some(i) => if i < stack.len() {
                Some(SessionHistory { stack, head: Some(i) })
            } else {
                None
            },
            None => Some(SessionHistory { stack, head: None }),
        }
    }

    /// The plain parts of the history, for a caller that persists it.
    pub fn parts(&self) -> (r: (Vec<String>, Option<usize>))
        ensures
            r.0@ == self.entries(),
            (match r.1 {
                Some(i) => Some(i as int),
                None => None::<int>,
            }) == self.cursor(),
    {
        (self.stack.clone(), self.head)
    }

    /// One backward step, as `prev_step` states it. `session` is the name of
    /// the session the user is leaving.
    pub fn prev(&mut self, session: String) -> (r: Option<String>)
        requires
            old(self).wf(),
        ensures
            final(self).wf(),
            (final(self).entries(), final(self).cursor(), r) == prev_step(
                old(self).entries(),
                old(self).cursor(),
                session,
            ),
    {
        let length = self.stack.len();
        let new_index: usize = match self.head {
            Some(index) => {
                if index > 0 {
                    index - 1
                } else {
                    return None;
                }
            },
            None => {
                if length > 0 {
                    self.stack.push(session);
                    length - 1
                } else {
                    return None;
                }
            },
        };
        self.head = Some(new_index);
        Some(self.stack[new_index].clone())
    }

    /// One forward step, as `next_step` states it.
    pub fn next(&mut self) -> (r: Option<String>)
        requires
            old(self).wf(),
        ensures
            final(self).wf(),
            (final(self).entries(), final(self).cursor(), r) == next_step(
                old(self).entries(),
                old(self).cursor(),
            ),
    {
        let length = self.stack.len();
        let new_index: usize = match self.head {
            Some(index) => {
                if index + 1 < length {
                    index + 1
                } else {
                    return None;
                }
            },
            None => {
                return None;
            },
        };
        self.head = Some(new_index);
        Some(self.stack[new_index].clone())
    }

    /// Discard the cursor and every entry from it on, as `truncate_step`
    /// states it: the forward part of the history is dropped when the user
    /// branches off in the middle of it.
    pub fn truncate(&mut self)
        requires
            old(self).wf(),
        ensures
            final(self).wf(),
            (final(self).entries(), final(self).cursor()) == truncate_step(
                old(self).entries(),
                old(self).cursor(),
            ),
    {
        if let Some(index) = self.head {
            while self.stack.len() > index
                invariant
                    index <= self.stack@.len() <= old(self).stack@.len(),
                    self.stack@ == old(self).stack@.take(self.stack@.len() as int),
                    self.head == old(self).head,
                decreases self.stack@.len(),
            {
                self.stack.pop();
            }
            self.head = None;
            assert(self.stack@ =~= old(self).stack@.take(index as int));
        }
    }

    /// Unconditionally append `session` to the entries; the cursor does not
    /// move.
    pub fn push(&mut self, session: String)
        requires
            old(self).wf(),
        ensures
            final(self).wf(),
            final(self).entries() == old(self).entries().push(session),
            final(self).cursor() == old(self).cursor(),
    {
        self.stack.push(session);
    }
}

/// Law: from a non-empty history that is not navigating, one backward step
/// followed by one forward step returns exactly the session that was handed
/// to the backward step, and the backward step returned the entry that was
/// last before the bookmark.
pub proof fn lemma_back_then_forward_round_trip(stack: Seq<String>, session: String)
    requires
        stack.len() > 0,
    ensures
        ({
            let (stack1, head1, back) = prev_step(stack, None::<int>, session);
            let (stack2, head2, fwd) = next_step(stack1, head1);
            &&& back == Some(stack.last())
            &&& fwd == Some(session)
            &&& stack2 == stack.push(session)
            &&& head2 == Some(stack.len() as int)
        }),
{
}

/// Law: a reset with the cursor at `i` shrinks the entries to exactly the
/// first `i` of them and clears the cursor; a reset with no cursor changes
/// nothing.
pub proof fn lemma_reset(stack: Seq<String>, head: Option<int>)
    requires
        head matches Some(i) ==> 0 <= i <= stack.len(),
    ensures
        head matches Some(i) ==> truncate_step(stack, head) == (stack.take(i), None::<int>)
            && truncate_step(stack, head).0.len() == i,
        head is None ==> truncate_step(stack, head) == (stack, head),
{
}

/// Law: a backward step with the cursor at the first entry returns nothing
/// and leaves the history exactly as it was, so repeating it changes nothing
/// either.
pub proof fn lemma_back_at_start_is_noop(stack: Seq<String>, session: String)
    ensures
        prev_step(stack, Some(0int), session) == (stack, Some(0int), None::<String>),
{
}

/// Law: a forward step while no navigation is in progress returns nothing
/// and leaves the history exactly as it was.
pub proof fn lemma_forward_at_present_is_noop(stack: Seq<String>)
    ensures
        next_step(stack, None::<int>) == (stack, None::<int>, None::<String>),
{
}

} // verus!
