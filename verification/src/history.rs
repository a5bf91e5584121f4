//! The undo history of the workflow editor: snapshots of the workflow, the
//! position of the one shown, and a cap on how many are kept.
use vstd::prelude::*;

verus! {

/// How many workflow snapshots the editor keeps.
pub const WORKFLOW_HISTORY_LIMIT: usize = 50;

/// Snapshots of a workflow, oldest first, with the position of the one shown
/// (`-1` while there is none) and the most snapshots kept.
pub struct WorkflowHistory<W> {
    workflow_history: Vec<W>,
    history_index: isize,
    max_history_size: usize,
}

/// A history state is sound: the position is `-1` exactly when there are no
/// snapshots and lies among them otherwise, and no more than `limit` are kept.
pub open spec fn history_ok<W>(s: Seq<W>, i: int, limit: nat) -> bool {
    &&& -1 <= i < s.len()
    &&& (s.len() == 0 <==> i == -1)
    &&& s.len() <= limit
}

/// The snapshots and position after saving `w`: the snapshots after the
/// shown one are dropped, `w` is added and shown, and the oldest snapshot
/// leaves when there are more than `limit`.
pub open spec fn after_save<W>(s: Seq<W>, i: int, limit: nat, w: W) -> (Seq<W>, int) {
    let kept = if 0 <= i && i < s.len() - 1 {
        s.take(i + 1)
    } else {
        s
    };
    let pushed = kept.push(w);
    if pushed.len() > limit {
        (pushed.skip(1), pushed.len() - 2)
    } else {
        (pushed, pushed.len() - 1)
    }
}

/// An earlier snapshot can be shown.
pub open spec fn undo_possible(i: int) -> bool {
    i > 0
}

/// A later snapshot can be shown.
pub open spec fn redo_possible(len: nat, i: int) -> bool {
    i < len - 1
}

/// The position after an undo.
pub open spec fn after_undo(i: int) -> int {
    if undo_possible(i) {
        i - 1
    } else {
        i
    }
}

/// The position after a redo.
pub open spec fn after_redo(len: nat, i: int) -> int {
    if redo_possible(len, i) {
        i + 1
    } else {
        i
    }
}

impl<W> WorkflowHistory<W> {
    /// The snapshots, oldest first.
    pub closed spec fn entries(&self) -> Seq<W> {
        self.workflow_history@
    }

    /// The position of the snapshot shown, `-1` while there is none.
    pub closed spec fn index(&self) -> int {
        self.history_index as int
    }

    /// The most snapshots kept.
    pub closed spec fn limit(&self) -> nat {
        self.max_history_size as nat
    }

    /// The history is sound, and its cap can be counted in an `isize`.
    pub open spec fn wf(&self) -> bool {
        history_ok(self.entries(), self.index(), self.limit()) && self.limit() < isize::MAX
    }

    /// An empty history keeping at most `max_history_size` snapshots.
    pub fn new(max_history_size: usize) -> (r: Self)
        requires
            max_history_size < isize::MAX,
        ensures
            r.wf(),
            r.entries() == Seq::<W>::empty(),
            r.index() == -1,
            r.limit() == max_history_size,
    {
        WorkflowHistory { workflow_history: Vec::new(), history_index: -1, max_history_size }
    }

    /// Saves a snapshot of the workflow as it is now.
    pub fn save(&mut self, snapshot: W)
        requires
            old(self).wf(),
        ensures
            final(self).wf(),
            final(self).limit() == old(self).limit(),
            (final(self).entries(), final(self).index())
                == after_save(old(self).entries(), old(self).index(), old(self).limit(), snapshot),
    {
        let ghost s = self.workflow_history@;
        let ghost i = self.history_index as int;
        let len = self.workflow_history.len();
        if self.history_index >= 0 && (self.history_index as usize) < len - 1 {
            self.workflow_history.truncate((self.history_index + 1) as usize);
        }
        let ghost kept = self.workflow_history@;
        assert(kept == (if 0 <= i && i < s.len() - 1 { s.take(i + 1) } else { s }));
        self.workflow_history.push(snapshot);
        self.history_index = self.workflow_history.len() as isize - 1;
        if self.workflow_history.len() > self.max_history_size {
            let _oldest = self.workflow_history.remove(0);
            self.history_index = self.history_index - 1;
            assert(self.workflow_history@ =~= kept.push(snapshot).skip(1));
        }
    }

    /// Whether an earlier snapshot can be shown.
    pub fn can_undo(&self) -> (r: bool)
        ensures
            r == undo_possible(self.index()),
    {
        self.history_index > 0
    }

    /// Whether a later snapshot can be shown.
    pub fn can_redo(&self) -> (r: bool)
        requires
            self.wf(),
        ensures
            r == redo_possible(self.entries().len(), self.index()),
    {
        self.history_index < self.workflow_history.len() as isize - 1
    }

    /// Steps back to the previous snapshot, when there is one.
    pub fn undo(&mut self) -> (moved: bool)
        requires
            old(self).wf(),
        ensures
            final(self).wf(),
            moved == undo_possible(old(self).index()),
            final(self).entries() == old(self).entries(),
            final(self).limit() == old(self).limit(),
            final(self).index() == after_undo(old(self).index()),
    {
        if self.history_index > 0 {
            self.history_index = self.history_index - 1;
            true
        } else {
            false
        }
    }

    /// Steps forward to the next snapshot, when there is one.
    pub fn redo(&mut self) -> (moved: bool)
        requires
            old(self).wf(),
        ensures
            final(self).wf(),
            moved == redo_possible(old(self).entries().len(), old(self).index()),
            final(self).entries() == old(self).entries(),
            final(self).limit() == old(self).limit(),
            final(self).index() == after_redo(old(self).entries().len(), old(self).index()),
    {
        if self.history_index < self.workflow_history.len() as isize - 1 {
            self.history_index = self.history_index + 1;
            true
        } else {
            false
        }
    }

    /// The snapshot shown, once there is one.
    pub fn snapshot(&self) -> (r: Option<&W>)
        requires
            self.wf(),
        ensures
            match r {
                Some(w) => 0 <= self.index() && *w == self.entries()[self.index()],
                None => self.index() == -1,
            },
    {
        if self.history_index >= 0 {
            Some(&self.workflow_history[self.history_index as usize])
        } else {
            None
        }
    }

    /// How many snapshots are kept.
    pub fn len(&self) -> (r: usize)
        ensures
            r == self.entries().len(),
    {
        self.workflow_history.len()
    }
}

/// Saving keeps the history sound.
pub proof fn lemma_save_keeps_history_sound<W>(s: Seq<W>, i: int, limit: nat, w: W)
    requires
        history_ok(s, i, limit),
    ensures
        history_ok(after_save(s, i, limit, w).0, after_save(s, i, limit, w).1, limit),
{
}

/// After a save the saved snapshot is the one shown, and there is nothing
/// to redo.
pub proof fn lemma_save_shows_snapshot<W>(s: Seq<W>, i: int, limit: nat, w: W)
    requires
        history_ok(s, i, limit),
        limit >= 1,
    ensures
        ({
            let (t, j) = after_save(s, i, limit, w);
            &&& 0 <= j < t.len()
            &&& t[j] == w
            &&& !redo_possible(t.len(), j)
        }),
{
}

/// Undoing right after a save shows again the snapshot shown before it,
/// unless the save pushed that snapshot out of the history.
pub proof fn lemma_undo_after_save<W>(s: Seq<W>, i: int, limit: nat, w: W)
    requires
        history_ok(s, i, limit),
        i >= 0,
        i + 2 <= limit || i >= 1,
    ensures
        ({
            let (t, j) = after_save(s, i, limit, w);
            undo_possible(j) && t[j - 1] == s[i]
        }),
{
}

/// Undo and redo keep the history sound.
pub proof fn lemma_moves_keep_history_sound<W>(s: Seq<W>, i: int, limit: nat)
    requires
        history_ok(s, i, limit),
    ensures
        history_ok(s, after_undo(i), limit),
        history_ok(s, after_redo(s.len(), i), limit),
{
}

/// Redoing right after an undo that moved returns to the snapshot shown before it.
pub proof fn lemma_redo_after_undo<W>(s: Seq<W>, i: int, limit: nat)
    requires
        history_ok(s, i, limit),
        undo_possible(i),
    ensures
        after_redo(s.len(), after_undo(i)) == i,
{
}

/// Undoing right after a redo that moved returns to the snapshot shown before it.
pub proof fn lemma_undo_after_redo<W>(s: Seq<W>, i: int, limit: nat)
    requires
        history_ok(s, i, limit),
        redo_possible(s.len(), i),
    ensures
        after_undo(after_redo(s.len(), i)) == i,
{
}

} // verus!
