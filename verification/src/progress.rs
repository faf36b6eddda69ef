//! The progress model behind the live bar a long-running transfer renders.
//!
//! Publish and fetch answer with a stream of status items; this model
//! decides, per item, what the bar shows: the position follows the bytes
//! written, the total length is either known up front (publish) or set
//! lazily from the first progress item that reports one (fetch), and a
//! completed or failed status finishes the bar with its message.

use vstd::prelude::*;
use crate::text::line;

verus! {

/// One item of a long-running operation's status stream.
#[derive(Debug)]
pub enum UnixfsStatus {
    /// Bytes written so far, and the total size where the service knows it.
    Progress { written: u64, total_size: Option<u64> },
    /// The operation completed; the path names what was produced.
    Completed { path: String },
    /// The operation failed; this status is terminal for the stream.
    Failed { error: String },
}

/// Which transfer the bar tracks; it decides the finish wording.
#[derive(Debug)]
pub enum TransferKind {
    /// Publishing a local file to the node.
    Publish,
    /// Materializing a content path to this local target file.
    Fetch { target: String },
}

/// What one status item does to the rendered bar.
#[derive(Debug)]
pub enum ProgressUpdate {
    /// Move the bar, first setting its total length where one was just learnt.
    Advance { set_length: Option<u64>, position: u64 },
    /// Finish the bar with this message.
    Finish { message: String },
}

/// The finish message of a successful transfer.
pub open spec fn spec_finish_ok(kind: TransferKind, path: Seq<char>) -> Seq<char> {
    match kind {
        TransferKind::Publish => "added "@ + path,
        TransferKind::Fetch { target } => "Saved file to "@ + target@,
    }
}

/// The finish message of a failed transfer.
pub open spec fn spec_finish_err(kind: TransferKind, error: Seq<char>) -> Seq<char> {
    match kind {
        TransferKind::Publish => "Error adding file to ipfs: "@ + error,
        TransferKind::Fetch { .. } => "Failed to saved file: "@ + error,
    }
}

/// The rendered state of one transfer's bar.
pub struct ProgressModel {
    /// Bytes the bar currently stands at.
    pub position: u64,
    /// The bar's total length, where known.
    pub length: Option<u64>,
    /// Whether the length is still to be learnt from the stream.
    pub lazy_length: bool,
    /// Whether a terminal status was seen.
    pub finished: bool,
}

impl ProgressModel {
    /// The bar's length after seeing a progress item reporting `total_size`:
    /// a lazy length is set by the first reported total and never moves again.
    pub open spec fn spec_length_after(self, total_size: Option<u64>) -> Option<u64> {
        if self.lazy_length && self.length is None && total_size is Some {
            total_size
        } else {
            self.length
        }
    }

    /// A bar whose total length is known up front, as publish knows the
    /// local file's size.
    pub fn new_sized(total: u64) -> (r: Self)
        ensures
            r.position == 0,
            r.length == Some(total),
            !r.lazy_length,
            !r.finished,
    {
        ProgressModel { position: 0, length: Some(total), lazy_length: false, finished: false }
    }

    /// A bar that learns its total length lazily from the first progress
    /// item that reports one, as fetch does.
    pub fn new_lazy() -> (r: Self)
        ensures
            r.position == 0,
            r.length is None,
            r.lazy_length,
            !r.finished,
    {
        ProgressModel { position: 0, length: None, lazy_length: true, finished: false }
    }

    /// Consumes one status item: a progress item moves the position to its
    /// written count (and, for a lazy bar, sets the length once); a
    /// completed or failed item finishes the bar with its message.
    pub fn apply(&mut self, kind: &TransferKind, status: &UnixfsStatus) -> (r: ProgressUpdate)
        ensures
            match status {
                UnixfsStatus::Progress { written, total_size } => {
                    &&& final(self).position == written
                    &&& final(self).length == old(self).spec_length_after(*total_size)
                    &&& final(self).lazy_length == old(self).lazy_length
                    &&& final(self).finished == old(self).finished
                    &&& r matches ProgressUpdate::Advance { set_length, position } && position
                        == written && set_length == (if old(self).length is None && old(
                        self,
                    ).lazy_length && total_size is Some {
                        *total_size
                    } else {
                        None::<u64>
                    })
                },
                UnixfsStatus::Completed { path } => {
                    &&& final(self).finished
                    &&& final(self).position == old(self).position
                    &&& final(self).length == old(self).length
                    &&& r matches ProgressUpdate::Finish { message } && message@ == spec_finish_ok(
                        *kind,
                        path@,
                    )
                },
                UnixfsStatus::Failed { error } => {
                    &&& final(self).finished
                    &&& final(self).position == old(self).position
                    &&& final(self).length == old(self).length
                    &&& r matches ProgressUpdate::Finish { message } && message@ == spec_finish_err(
                        *kind,
                        error@,
                    )
                },
            },
    {
        match status {
            UnixfsStatus::Progress { written, total_size } => {
                let set_length: Option<u64> =
                    if self.lazy_length && self.length.is_none() {
                    match total_size {
                        Some(t) => Some(*t),
                        None => None,
                    }
                } else {
                    None
                };
                if let Some(t) = set_length {
                    self.length = Some(t);
                }
                self.position = *written;
                ProgressUpdate::Advance { set_length, position: *written }
            },
            UnixfsStatus::Completed { path } => {
                self.finished = true;
                let message = match kind {
                    TransferKind::Publish => line("added ", path.as_str()),
                    TransferKind::Fetch { target } => line("Saved file to ", target.as_str()),
                };
                ProgressUpdate::Finish { message }
            },
            UnixfsStatus::Failed { error } => {
                self.finished = true;
                let message = match kind {
                    TransferKind::Publish => line("Error adding file to ipfs: ", error.as_str()),
                    TransferKind::Fetch { .. } => line("Failed to saved file: ", error.as_str()),
                };
                ProgressUpdate::Finish { message }
            },
        }
    }

    /// The model a progress item leaves behind, as `apply` computes it.
    pub open spec fn spec_after_progress(self, written: u64, total_size: Option<u64>) -> Self {
        ProgressModel {
            position: written,
            length: self.spec_length_after(total_size),
            lazy_length: self.lazy_length,
            finished: self.finished,
        }
    }
}

/// The model left after consuming a whole sequence of progress items.
pub open spec fn spec_run_progress(m: ProgressModel, items: Seq<(u64, Option<u64>)>) -> ProgressModel
    decreases items.len(),
{
    if items.len() == 0 {
        m
    } else {
        spec_run_progress(m.spec_after_progress(items[0].0, items[0].1), items.drop_first())
    }
}

/// After at least one progress item, the bar stands at the last item's
/// written count.
pub proof fn lemma_run_progress_position(m: ProgressModel, items: Seq<(u64, Option<u64>)>)
    requires
        items.len() > 0,
    ensures
        spec_run_progress(m, items).position == items.last().0,
    decreases items.len(),
{
    if items.len() == 1 {
    } else {
        lemma_run_progress_position(
            m.spec_after_progress(items[0].0, items[0].1),
            items.drop_first(),
        );
        assert(items.drop_first().last() == items.last());
    }
}

/// Law: across successive progress items whose written counts do not
/// decrease, the rendered position is monotonically non-decreasing — the
/// bar never moves backwards. (A stream whose written counts decrease is
/// outside this law: the bar then follows them.)
pub proof fn lemma_progress_monotone(
    m: ProgressModel,
    items: Seq<(u64, Option<u64>)>,
    i: int,
    j: int,
)
    requires
        forall|k: int, l: int| 0 <= k <= l < items.len() ==> items[k].0 <= items[l].0,
        0 < i <= j <= items.len(),
    ensures
        spec_run_progress(m, items.take(i)).position <= spec_run_progress(
            m,
            items.take(j),
        ).position,
{
    lemma_run_progress_position(m, items.take(i));
    lemma_run_progress_position(m, items.take(j));
    assert(items.take(i).last() == items[i - 1]);
    assert(items.take(j).last() == items[j - 1]);
}

} // verus!
