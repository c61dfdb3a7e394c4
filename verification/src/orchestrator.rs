//! The migration orchestrator.
//!
//! A run is a linear state machine: snapshot both sides, fetch every source
//! record, transform each one, block on an operator's confirmation, write the
//! transformed set to the destination, snapshot the destination again, and
//! finally trigger the asset sync.  The machine only decides; the embedding
//! program performs each returned [`Action`] and reports what happened as the
//! next [`Event`].  Every store or console failure aborts the run, and the
//! destination write can only ever be requested after an affirmative answer
//! at the confirmation checkpoint.

use vstd::prelude::*;
use bson::Document;
use crate::codec::bson_parses;
use crate::codec::doc_bytes;
use crate::codec::doc_to_bytes;
use crate::codec::reserialization_of;
use crate::config::MongoConfig;
use crate::config::copy_bytes;
use crate::config::generate_s3_uri;
use crate::config::s3_uri_of;
use crate::transform::TransformError;
use crate::transform::check_patch_lengths;
use crate::transform::patches_len_ok;
use crate::transform::record_transform;
use crate::transform::transform_record;

verus! {

/// The single affirmative confirmation byte, the character `y`.
pub const AFFIRMATIVE: u8 = 121;

/// Where a run stands.
#[derive(Clone, Copy, Debug, PartialEq, Eq, Structural)]
pub enum Stage {
    Init,
    SnapshotBefore,
    Fetching,
    Confirming,
    Writing,
    SnapshotAfter,
    SyncingAssets,
    Done,
    Aborted,
    Failed,
}

/// Why a run failed.
#[derive(Clone, Copy, Debug, PartialEq, Eq, Structural)]
pub enum RunError {
    /// A store connection could not be established.
    Connection,
    /// A collection could not be read.
    Fetch,
    /// A record's transform was aborted.
    Transform(TransformError),
    /// The destination insert failed.
    Write,
}

/// What the embedding program reports back after performing an action.
pub enum Event {
    /// The run begins.
    Start,
    /// The requested snapshot was printed.
    SnapshotDone,
    /// The full source collection, read into memory.
    Fetched(Vec<Document>),
    /// The single confirmation byte read from the operator.
    Answer(u8),
    /// The destination insert succeeded.
    WriteDone,
    /// The asset copy succeeded.
    AssetSyncDone,
    /// The asset copy failed; reported, never fatal.
    AssetSyncFailed,
    /// A store or console operation failed.
    Failed(RunError),
}

/// The arguments of the external recursive-copy capability.
pub struct AssetSyncCmd {
    pub source_uri: Vec<u8>,
    pub dest_uri: Vec<u8>,
    pub source_region: Vec<u8>,
    pub dest_region: Vec<u8>,
}

/// What the embedding program is asked to do next.
pub enum Action {
    /// Print an identity line for every record of both collections.
    TakeSnapshots,
    /// Read the full source collection.
    Fetch,
    /// Read one confirmation byte from the operator.
    AskConfirmation,
    /// Insert the transformed records into the destination collection.
    Write(Vec<Document>),
    /// Print an identity line for every record of the destination collection.
    TakeDestinationSnapshot,
    /// Copy the asset tree between the two bucket paths.
    SyncAssets(AssetSyncCmd),
    /// The run is over; nothing is left to do.
    Stop,
}

/// Whether a stage is terminal: no event moves the machine out of it.
pub open spec fn is_terminal(stage: Stage) -> bool {
    stage is Done || stage is Aborted || stage is Failed
}

/// The event each stage waits for.
pub open spec fn expected_event(stage: Stage, event: Event) -> bool {
    match event {
        Event::Start => stage is Init,
        Event::SnapshotDone => stage is SnapshotBefore || stage is SnapshotAfter,
        Event::Fetched(_) => stage is Fetching,
        Event::Answer(_) => stage is Confirming,
        Event::WriteDone => stage is Writing,
        Event::AssetSyncDone => stage is SyncingAssets,
        Event::AssetSyncFailed => stage is SyncingAssets,
        Event::Failed(_) => !is_terminal(stage),
    }
}

/// The transient state of one migration run.
pub struct MigrationRun {
    pub from: MongoConfig,
    pub to: MongoConfig,
    pub stage: Stage,
    /// The raw bytes of every fetched source record.
    pub source_bytes: Vec<Vec<u8>>,
    /// The patched bytes of every record, same order.
    pub transformed_bytes: Vec<Vec<u8>>,
    /// The documents the patched bytes parse to; handed out by `Write`.
    pub transformed_docs: Vec<Document>,
    pub error: Option<RunError>,
    pub asset_sync_failed: bool,
}

impl MigrationRun {
    /// A fresh run over the two endpoints.
    pub fn new(from: MongoConfig, to: MongoConfig) -> (r: MigrationRun)
        ensures
            r.from == from,
            r.to == to,
            r.stage is Init,
            r.source_bytes@.len() == 0,
            r.transformed_bytes@.len() == 0,
            r.transformed_docs@.len() == 0,
            r.error is None,
            !r.asset_sync_failed,
    {
        MigrationRun {
            from,
            to,
            stage: Stage::Init,
            source_bytes: Vec::new(),
            transformed_bytes: Vec::new(),
            transformed_docs: Vec::new(),
            error: None,
            asset_sync_failed: false,
        }
    }

    /// Transform every fetched record, in order, failing fast on the first
    /// record whose transform is rejected.
    fn transform_all(&mut self, docs: Vec<Document>) -> (a: Action)
        ensures
            final(self).from == old(self).from,
            final(self).to == old(self).to,
            final(self).stage is Confirming || final(self).stage is Failed,
            final(self).stage is Failed ==> a is Stop && (final(self).error matches Some(
                RunError::Transform(_),
            )),
            !patches_len_ok(old(self).from, old(self).to) && docs@.len() > 0 ==> final(self).stage is Failed && final(self).error == Some(
                RunError::Transform(TransformError::InvariantViolation),
            ),
            final(self).stage is Confirming ==> a is AskConfirmation,
            final(self).stage is Confirming ==> final(self).source_bytes@.len() == docs@.len()
                && final(self).transformed_bytes@.len() == docs@.len() && final(self).transformed_docs@.len() == docs@.len(),
            final(self).stage is Confirming ==> forall|i: int|
                0 <= i < docs@.len() ==> (#[trigger] final(self).source_bytes@[i])@ == doc_bytes(
                    docs@[i],
                ),
            final(self).stage is Confirming ==> forall|i: int|
                0 <= i < docs@.len() ==> (#[trigger] final(self).transformed_bytes@[i])@
                    == record_transform(old(self).from, old(self).to, doc_bytes(docs@[i])),
            final(self).stage is Confirming ==> forall|i: int|
                0 <= i < docs@.len() ==> (#[trigger] final(self).transformed_bytes@[i])@.len()
                    == (final(self).source_bytes@[i])@.len(),
            final(self).stage is Confirming ==> forall|i: int|
                0 <= i < docs@.len() ==> bson_parses(
                    (#[trigger] final(self).transformed_bytes@[i])@,
                ),
            final(self).stage is Confirming ==> forall|i: int|
                0 <= i < docs@.len() ==> doc_bytes(
                    #[trigger] final(self).transformed_docs@[i],
                ) == reserialization_of((final(self).transformed_bytes@[i])@),
    {
        let n = docs.len();
        if n > 0 && !check_patch_lengths(&self.from, &self.to) {
            self.stage = Stage::Failed;
            self.error = Some(RunError::Transform(TransformError::InvariantViolation));
            return Action::Stop;
        }
        self.source_bytes = Vec::new();
        self.transformed_bytes = Vec::new();
        self.transformed_docs = Vec::new();
        let mut i: usize = 0;
        while i < n
            invariant
                i <= n,
                n == docs@.len(),
                self.from == old(self).from,
                self.to == old(self).to,
                n > 0 ==> patches_len_ok(self.from, self.to),
                self.source_bytes@.len() == i,
                self.transformed_bytes@.len() == i,
                self.transformed_docs@.len() == i,
                forall|k: int|
                    0 <= k < i ==> (#[trigger] self.source_bytes@[k])@ == doc_bytes(docs@[k]),
                forall|k: int|
                    0 <= k < i ==> (#[trigger] self.transformed_bytes@[k])@ == record_transform(
                        self.from,
                        self.to,
                        doc_bytes(docs@[k]),
                    ),
                forall|k: int|
                    0 <= k < i ==> (#[trigger] self.transformed_bytes@[k])@.len() == (
                    self.source_bytes@[k])@.len(),
                forall|k: int|
                    0 <= k < i ==> bson_parses((#[trigger] self.transformed_bytes@[k])@),
                forall|k: int|
                    0 <= k < i ==> doc_bytes(#[trigger] self.transformed_docs@[k])
                        == reserialization_of((self.transformed_bytes@[k])@),
            decreases n - i,
        {
            let bytes = match doc_to_bytes(&docs[i]) {
                Ok(b) => b,
                Err(_) => {
                    self.stage = Stage::Failed;
                    self.error = Some(RunError::Transform(TransformError::CorruptTransform));
                    return Action::Stop;
                },
            };
            match transform_record(&self.from, &self.to, &bytes) {
                Ok((t, d)) => {
                    self.source_bytes.push(bytes);
                    self.transformed_bytes.push(t);
                    self.transformed_docs.push(d);
                },
                Err(e) => {
                    self.stage = Stage::Failed;
                    self.error = Some(RunError::Transform(e));
                    return Action::Stop;
                },
            }
            i += 1;
        }
        self.stage = Stage::Confirming;
        Action::AskConfirmation
    }

    /// Advance the machine by one event and say what to do next.
    ///
    /// The confirmation checkpoint: a `Write` action is returned exactly when the
    /// machine was waiting at the checkpoint and the operator answered with the
    /// affirmative byte; any other answer aborts the run with no write
    /// requested, then or later.
    pub fn step(&mut self, event: Event) -> (a: Action)
        ensures
            final(self).from == old(self).from,
            final(self).to == old(self).to,
            // the confirmation checkpoint
            (a is Write) <==> (old(self).stage is Confirming && event == Event::Answer(
                AFFIRMATIVE,
            )),
            a matches Action::Write(d) ==> d == old(self).transformed_docs && final(self).stage is Writing && final(self).transformed_docs@.len() == 0,
            old(self).stage is Confirming ==> (event matches Event::Answer(b) ==> (b
                != AFFIRMATIVE ==> final(self).stage is Aborted && a is Stop)),
            // terminal stages absorb every event
            is_terminal(old(self).stage) ==> *final(self) == *old(self) && a is Stop,
            // reported failures abort the run
            !is_terminal(old(self).stage) ==> (event matches Event::Failed(e) ==> final(self).stage is Failed && final(self).error == Some(e) && a is Stop),
            // the linear progression
            old(self).stage is Init && event is Start ==> final(self).stage is SnapshotBefore
                && a is TakeSnapshots,
            old(self).stage is SnapshotBefore && event is SnapshotDone ==> final(self).stage is Fetching && a is Fetch,
            old(self).stage is Writing && event is WriteDone ==> final(self).stage is SnapshotAfter && a is TakeDestinationSnapshot,
            old(self).stage is SnapshotAfter && event is SnapshotDone ==> final(self).stage is SyncingAssets && (a matches Action::SyncAssets(cmd)
                ==> cmd.source_uri@ == s3_uri_of(old(self).from) && cmd.dest_uri@ == s3_uri_of(
                old(self).to,
            ) && cmd.source_region@ == old(self).from.region@ && cmd.dest_region@ == old(self).to.region@) && (a is SyncAssets),
            old(self).stage is SyncingAssets && event is AssetSyncDone ==> final(self).stage is Done && a is Stop && final(self).asset_sync_failed == old(self).asset_sync_failed,
            // a failed asset sync is reported, never fatal
            old(self).stage is SyncingAssets && event is AssetSyncFailed ==> final(self).stage is Done && a is Stop && final(self).asset_sync_failed,
            // an event the stage does not wait for is a protocol fault
            !is_terminal(old(self).stage) && !expected_event(old(self).stage, event) ==> final(self).stage is Failed && a is Stop,
            // the record sets only change when records are transformed or handed out
            !(old(self).stage is Fetching && event is Fetched) ==> final(self).source_bytes == old(self).source_bytes && final(self).transformed_bytes == old(self).transformed_bytes,
            !(old(self).stage is Fetching && event is Fetched) && !(a is Write) ==> final(self).transformed_docs == old(self).transformed_docs,
            // transforming the fetched records
            old(self).stage is Fetching && event is Fetched ==> final(self).stage is Confirming
                || final(self).stage is Failed,
            old(self).stage is Fetching && final(self).stage is Confirming ==> (
            event matches Event::Fetched(docs) ==> a is AskConfirmation && final(self).source_bytes@.len() == docs@.len() && final(self).transformed_bytes@.len()
                == docs@.len() && final(self).transformed_docs@.len() == docs@.len() && (forall|
                i: int,
            |
                0 <= i < docs@.len() ==> (#[trigger] final(self).source_bytes@[i])@ == doc_bytes(
                    docs@[i],
                )) && (forall|i: int|
                0 <= i < docs@.len() ==> (#[trigger] final(self).transformed_bytes@[i])@
                    == record_transform(old(self).from, old(self).to, doc_bytes(docs@[i]))) && (
            forall|i: int|
                0 <= i < docs@.len() ==> (#[trigger] final(self).transformed_bytes@[i])@.len() == (
                final(self).source_bytes@[i])@.len()) && (forall|i: int|
                0 <= i < docs@.len() ==> bson_parses(
                    (#[trigger] final(self).transformed_bytes@[i])@,
                )) && (forall|i: int|
                0 <= i < docs@.len() ==> doc_bytes(#[trigger] final(self).transformed_docs@[i])
                    == reserialization_of((final(self).transformed_bytes@[i])@))),
            old(self).stage is Fetching && !patches_len_ok(old(self).from, old(self).to) ==> (
            event matches Event::Fetched(docs) ==> (docs@.len() > 0 ==> final(self).stage is Failed && final(self).error == Some(
                RunError::Transform(TransformError::InvariantViolation),
            ))),
            old(self).stage is Fetching && event is Fetched && final(self).stage is Failed ==> (
            final(self).error matches Some(RunError::Transform(_))) && a is Stop,
    {
        match (self.stage, event) {
            (Stage::Done, _) => Action::Stop,
            (Stage::Aborted, _) => Action::Stop,
            (Stage::Failed, _) => Action::Stop,
            (Stage::Init, Event::Start) => {
                self.stage = Stage::SnapshotBefore;
                Action::TakeSnapshots
            },
            (Stage::SnapshotBefore, Event::SnapshotDone) => {
                self.stage = Stage::Fetching;
                Action::Fetch
            },
            (Stage::Fetching, Event::Fetched(docs)) => self.transform_all(docs),
            (Stage::Confirming, Event::Answer(b)) => {
                if b == AFFIRMATIVE {
                    let mut out: Vec<Document> = Vec::new();
                    core::mem::swap(&mut out, &mut self.transformed_docs);
                    self.stage = Stage::Writing;
                    Action::Write(out)
                } else {
                    self.stage = Stage::Aborted;
                    Action::Stop
                }
            },
            (Stage::Writing, Event::WriteDone) => {
                self.stage = Stage::SnapshotAfter;
                Action::TakeDestinationSnapshot
            },
            (Stage::SnapshotAfter, Event::SnapshotDone) => {
                self.stage = Stage::SyncingAssets;
                Action::SyncAssets(
                    AssetSyncCmd {
                        source_uri: generate_s3_uri(&self.from),
                        dest_uri: generate_s3_uri(&self.to),
                        source_region: copy_bytes(&self.from.region),
                        dest_region: copy_bytes(&self.to.region),
                    },
                )
            },
            (Stage::SyncingAssets, Event::AssetSyncDone) => {
                self.stage = Stage::Done;
                Action::Stop
            },
            (Stage::SyncingAssets, Event::AssetSyncFailed) => {
                self.stage = Stage::Done;
                self.asset_sync_failed = true;
                Action::Stop
            },
            (_, Event::Failed(e)) => {
                self.stage = Stage::Failed;
                self.error = Some(e);
                Action::Stop
            },
            (_, _) => {
                self.stage = Stage::Failed;
                Action::Stop
            },
        }
    }
}

} // verus!
