//! The settings that the engine runs on. They are read once, before the
//! engine starts, and never changed.

use crate::apply::{Pipeline, PipelineView};
use crate::registration::{Phase, Registration, RegistrationView};
use crate::scan::{EntryView, Scan, ScanView};
use vstd::prelude::*;

verus! {

/// The settings of one engine.
#[derive(Clone, Debug, PartialEq, Eq)]
pub struct SyncConfig {
    /// The source subtree that is replicated.
    pub watched_prefix: String,
    /// The destination subtree that mirrors it.
    pub destination_prefix: String,
    /// The seconds between two reconciliation scans.
    pub scan_interval: u64,
    /// Whether destination calls are only announced.
    pub dry_run: bool,
    /// The identity under which the engine registers as a forwarding sink.
    pub sink_id: String,
    /// The address at which the source store reaches the engine.
    pub callback_address: String,
}

impl SyncConfig {
    /// The apply stage that these settings ask for, with nothing queued.
    pub fn pipeline(&self) -> (pipeline: Pipeline)
        ensures
            pipeline@ == (PipelineView {
                watched: self.watched_prefix@,
                destination: self.destination_prefix@,
                dry_run: self.dry_run,
                queue: Seq::empty(),
            }),
    {
        Pipeline::new(
            self.watched_prefix.as_str(),
            self.destination_prefix.as_str(),
            self.dry_run,
        )
    }

    /// A scan of the watched prefix, about to begin.
    pub fn scan(&self) -> (scan: Scan)
        ensures
            scan@ == (ScanView {
                watched: self.watched_prefix@,
                pending: seq![EntryView::Folder(self.watched_prefix@)],
            }),
    {
        Scan::begin(self.watched_prefix.as_str())
    }

    /// The registration of this engine, on which nothing has happened yet.
    pub fn registration(&self) -> (registration: Registration)
        ensures
            registration@ == (RegistrationView {
                id: self.sink_id@,
                address: self.callback_address@,
                phase: Phase::Idle,
            }),
    {
        Registration::new(self.sink_id.as_str(), self.callback_address.as_str())
    }
}

} // verus!
