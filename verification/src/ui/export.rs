//! Exporting the whole queue: when it may start, its progress, and the line the export
//! footer shows.
//!
//! Photos are exported one after the other; the caller exports each and reports whether
//! it succeeded with [`ExportRun::record`].

use vstd::prelude::*;

use crate::chars::string_of;
use crate::decimal::{decimal_text, push_decimal_text};

verus! {

/// Where the export of the queue stands.
#[derive(Debug, Clone, Copy, PartialEq, Eq)]
pub enum ExportState {
    Idle,
    Running { completed: usize, total: usize },
    Finished { succeeded: usize, failed: usize },
}

/// An export may start when there are photos, an output folder is set, and no export is
/// running.
pub open spec fn spec_can_start_export(photo_count: nat, has_output_folder: bool, state: ExportState) -> bool {
    photo_count > 0 && has_output_folder && !(state is Running)
}

/// Whether the export of the queue may start now.
pub fn can_start_export(photo_count: usize, has_output_folder: bool, state: &ExportState) -> (b: bool)
    ensures
        b == spec_can_start_export(photo_count as nat, has_output_folder, *state),
{
    photo_count > 0 && has_output_folder && !matches!(state, ExportState::Running { .. })
}

/// The progress of one export run.
pub struct ExportRun {
    total: usize,
    completed: usize,
    succeeded: usize,
}

impl ExportRun {
    pub closed spec fn total(&self) -> nat {
        self.total as nat
    }

    pub closed spec fn completed(&self) -> nat {
        self.completed as nat
    }

    pub closed spec fn succeeded(&self) -> nat {
        self.succeeded as nat
    }

    /// Photos are counted once each, and only exported photos can have succeeded.
    pub closed spec fn wf(&self) -> bool {
        self.succeeded <= self.completed <= self.total
    }

    /// Starts exporting `total` photos.
    pub fn start(total: usize) -> (r: (ExportRun, ExportState))
        ensures
            r.0.wf(),
            r.0.total() == total,
            r.0.completed() == 0,
            r.0.succeeded() == 0,
            r.1 == (ExportState::Running { completed: 0, total }),
    {
        (ExportRun { total, completed: 0, succeeded: 0 }, ExportState::Running { completed: 0, total })
    }

    /// Whether every photo has been exported or has failed.
    pub fn is_done(&self) -> (b: bool)
        ensures
            b == (self.completed() == self.total()),
    {
        self.completed == self.total
    }

    /// One more photo has been exported (`ok`) or has failed; gives the state to show.
    pub fn record(&mut self, ok: bool) -> (s: ExportState)
        requires
            old(self).wf(),
            old(self).completed() < old(self).total(),
        ensures
            final(self).wf(),
            final(self).total() == old(self).total(),
            final(self).completed() == old(self).completed() + 1,
            final(self).succeeded() == old(self).succeeded() + if ok {
                1nat
            } else {
                0nat
            },
            s == (ExportState::Running {
                completed: final(self).completed() as usize,
                total: final(self).total() as usize,
            }),
    {
        self.completed = self.completed + 1;
        if ok {
            self.succeeded = self.succeeded + 1;
        }
        ExportState::Running { completed: self.completed, total: self.total }
    }

    /// The state once the run is over: every photo either succeeded or failed.
    pub fn finish(&self) -> (s: ExportState)
        requires
            self.wf(),
        ensures
            s == (ExportState::Finished {
                succeeded: self.succeeded() as usize,
                failed: (self.total() - self.succeeded()) as usize,
            }),
    {
        ExportState::Finished { succeeded: self.succeeded, failed: self.total - self.succeeded }
    }
}

/// Every photo of a run is counted once when it finishes, as a success or a failure.
pub proof fn lemma_finished_run_accounts_for_every_photo(run: ExportRun)
    requires
        run.wf(),
    ensures
        run.succeeded() <= run.total(),
        run.succeeded() + (run.total() - run.succeeded()) as nat == run.total(),
{
}

/// The footer line for an export state.
pub open spec fn spec_export_status(state: ExportState) -> Seq<char> {
    match state {
        ExportState::Running { completed, total } => "正在导出 "@ + decimal_text(completed as nat)
            + "/"@ + decimal_text(total as nat),
        ExportState::Finished { succeeded, failed } => if failed == 0 {
            "已导出 "@ + decimal_text(succeeded as nat) + " 张"@
        } else {
            "已导出 "@ + decimal_text(succeeded as nat) + " 张，"@ + decimal_text(failed as nat)
                + " 张失败"@
        },
        ExportState::Idle => Seq::empty(),
    }
}

fn push_text(out: &mut Vec<char>, text: &str)
    ensures
        final(out)@ == old(out)@ + text@,
{
    let more = crate::chars::chars_of(text);
    let mut k: usize = 0;
    while k < more.len()
        invariant
            k <= more@.len(),
            more@ == text@,
            out@ == old(out)@ + more@.take(k as int),
        decreases more@.len() - k,
    {
        out.push(more[k]);
        k = k + 1;
        assert(out@ == old(out)@ + more@.take(k as int));
    }
    assert(more@.take(more@.len() as int) == more@);
}

/// The line the export footer shows.
pub fn export_status(state: &ExportState) -> (s: String)
    ensures
        s@ == spec_export_status(*state),
{
    let mut out: Vec<char> = Vec::new();
    match *state {
        ExportState::Running { completed, total } => {
            push_text(&mut out, "正在导出 ");
            push_decimal_text(&mut out, completed as u64);
            push_text(&mut out, "/");
            push_decimal_text(&mut out, total as u64);
        },
        ExportState::Finished { succeeded, failed } => {
            push_text(&mut out, "已导出 ");
            push_decimal_text(&mut out, succeeded as u64);
            if failed == 0 {
                push_text(&mut out, " 张");
            } else {
                push_text(&mut out, " 张，");
                push_decimal_text(&mut out, failed as u64);
                push_text(&mut out, " 张失败");
            }
        },
        ExportState::Idle => {},
    }
    string_of(out.as_slice())
}

} // verus!
