//! Manage layer lifecycles in a declarative way.
//!
//! The lifecycle of one layer is a state machine. Each state names the one thing the
//! host has to do next (read or write the layer's metadata, delete the layer, or call
//! a hook of the buildpack's lifecycle implementation); the host does it and hands the
//! outcome back as an event, and `advance` decides what comes next. The machine starts
//! in `ReadingMetadata`, after the host fired `on_lifecycle_start`, and ends in `Finished`.

use vstd::prelude::*;

use crate::data::layer::Layer as ContentMetadata;
use crate::error::Error;

verus! {

/// The result of the recovery process for invalid layer metadata.
pub enum MetadataRecoveryStrategy<M> {
    /// Delete the layer entirely.
    DeleteLayer,
    /// Replace the metadata payload, keeping the flags that were read.
    ReplaceMetadata(M),
}

/// The result of a layer validation.
pub enum ValidateResult {
    /// Keep the layer just as it is.
    KeepLayer,
    /// Delete the layer and create a new one.
    RecreateLayer,
    /// Update the existing layer.
    UpdateLayer,
}

/// Errors of the lifecycle engine itself. Each carries the message of the failure
/// that the host met, where there was one.
pub enum LayerLifecycleError {
    /// The recovered metadata could not be written.
    CannotReplaceLayerMetadata(String),
    /// The metadata could not be read even without a schema.
    CannotNotReadUntypedLayerMetadata(String),
    /// The record of `create` or `update` could not be written.
    CannotWriteLayerMetadata(String),
    /// The layer's directory could not be created before `create`.
    CannotCreateLayerDirectoryBeforeCreate(String),
    /// The layer could not be deleted, or its directory not made again afterwards.
    CannotDeleteLayer(String),
    /// No metadata was on disk at the end of the lifecycle.
    CannotFindLayerMetadataAfterLifecycle(),
    /// The metadata on disk at the end of the lifecycle could not be read.
    CannotReadLayerContentMetadata(String),
}

/// Where the lifecycle of one layer stands, and what the host has to do next.
///
/// `M` is the metadata payload the buildpack expects, `U` the schema-free payload
/// (a TOML table), `O` the output of the lifecycle and `E` the buildpack's error type.
pub enum LifecycleState<M, U, O, E> {
    /// Read the layer's content metadata into `M`. Answer: `TypedRead`.
    ReadingMetadata,
    /// Read the layer's content metadata without a schema. Answer: `UntypedRead`.
    ReadingUntypedMetadata,
    /// Call `recover_from_invalid_metadata` with this record's payload. Answer: `Recovered`.
    Recovering(ContentMetadata<U>),
    /// Delete the layer whose metadata was invalid. Answer: `Deleted`.
    DeletingInvalidLayer,
    /// Write this record in place of the invalid metadata. Answer: `Written`.
    ReplacingMetadata(ContentMetadata<M>),
    /// Call `validate` with this record. Answer: `Validated`.
    Validating(ContentMetadata<M>),
    /// Fire `on_keep`. Answer: `Notified`.
    Keeping,
    /// Delete the layer so that it can be created anew. Answer: `Deleted`.
    DeletingForRecreate,
    /// Create the layer's directory. Answer: `DirectoryCreated`.
    CreatingDirectory { recreate: bool },
    /// Fire `on_create`, then call `create`. Answer: `Created`.
    Creating,
    /// Fire `on_update`, then call `update` with this record. Answer: `Updated`.
    Updating(ContentMetadata<M>),
    /// Write this record as the layer's content metadata. Answer: `Written`.
    WritingMetadata(ContentMetadata<M>),
    /// Fire `on_lifecycle_end`, then read the layer's content metadata again, into `M`.
    /// Answer: `TypedRead`.
    ReadingBack,
    /// Call `layer_lifecycle_data` with this record, read back from disk. Answer: `Computed`.
    ComputingData(ContentMetadata<M>),
    /// The lifecycle is over, with this outcome.
    Finished(Result<O, Error<E>>),
}

/// The outcome of what a `LifecycleState` asked the host to do.
pub enum LifecycleEvent<M, U, O, E> {
    /// The typed read: the record, `None` when there is no metadata file, or the
    /// message of the failure.
    TypedRead(Result<Option<ContentMetadata<M>>, String>),
    /// The schema-free read, likewise.
    UntypedRead(Result<Option<ContentMetadata<U>>, String>),
    /// What `recover_from_invalid_metadata` returned.
    Recovered(Result<MetadataRecoveryStrategy<M>, E>),
    /// Whether the layer's directory and metadata file were deleted.
    Deleted(Result<(), String>),
    /// Whether the record was written to the layer's metadata file.
    Written(Result<(), String>),
    /// What `validate` returned.
    Validated(ValidateResult),
    /// A notification hook was fired.
    Notified,
    /// Whether the layer's directory was created.
    DirectoryCreated(Result<(), String>),
    /// What `create` returned.
    Created(Result<ContentMetadata<M>, E>),
    /// What `update` returned.
    Updated(Result<ContentMetadata<M>, E>),
    /// What `layer_lifecycle_data` returned.
    Computed(Result<O, E>),
}

/// The engine's own error as the outcome of a lifecycle.
pub open spec fn engine_failure<O, E>(e: LayerLifecycleError) -> Result<O, Error<E>> {
    Err(Error::LayerLifecycleError(e))
}

/// The buildpack's own error as the outcome of a lifecycle.
pub open spec fn buildpack_failure<O, E>(e: E) -> Result<O, Error<E>> {
    Err(Error::BuildpackError(e))
}

impl<M, U, O, E> LifecycleState<M, U, O, E> {
    /// The state that follows this one when the host answers with `event`. An event
    /// that does not answer this state's request leaves the state as it is.
    pub open spec fn next(self, event: LifecycleEvent<M, U, O, E>) -> Self {
        match (self, event) {
            (LifecycleState::ReadingMetadata, LifecycleEvent::TypedRead(read)) => match read {
                Ok(Some(record)) => LifecycleState::Validating(record),
                Ok(None) => LifecycleState::CreatingDirectory { recreate: false },
                Err(_) => LifecycleState::ReadingUntypedMetadata,
            },
            (LifecycleState::ReadingUntypedMetadata, LifecycleEvent::UntypedRead(read)) => match read {
                Ok(Some(record)) => LifecycleState::Recovering(record),
                Ok(None) => LifecycleState::CreatingDirectory { recreate: false },
                Err(m) => LifecycleState::Finished(
                    engine_failure(LayerLifecycleError::CannotNotReadUntypedLayerMetadata(m)),
                ),
            },
            (LifecycleState::Recovering(record), LifecycleEvent::Recovered(strategy)) => match strategy {
                Ok(MetadataRecoveryStrategy::DeleteLayer) => LifecycleState::DeletingInvalidLayer,
                Ok(MetadataRecoveryStrategy::ReplaceMetadata(payload)) => LifecycleState::ReplacingMetadata(
                    ContentMetadata {
                        launch: record.launch,
                        build: record.build,
                        cache: record.cache,
                        metadata: payload,
                    },
                ),
                Err(e) => LifecycleState::Finished(buildpack_failure(e)),
            },
            (LifecycleState::DeletingInvalidLayer, LifecycleEvent::Deleted(done)) => match done {
                Ok(_) => LifecycleState::CreatingDirectory { recreate: false },
                Err(m) => LifecycleState::Finished(
                    engine_failure(LayerLifecycleError::CannotDeleteLayer(m)),
                ),
            },
            (LifecycleState::ReplacingMetadata(record), LifecycleEvent::Written(done)) => match done {
                Ok(_) => LifecycleState::Validating(record),
                Err(m) => LifecycleState::Finished(
                    engine_failure(LayerLifecycleError::CannotReplaceLayerMetadata(m)),
                ),
            },
            (LifecycleState::Validating(record), LifecycleEvent::Validated(result)) => match result {
                ValidateResult::KeepLayer => LifecycleState::Keeping,
                ValidateResult::RecreateLayer => LifecycleState::DeletingForRecreate,
                ValidateResult::UpdateLayer => LifecycleState::Updating(record),
            },
            (LifecycleState::Keeping, LifecycleEvent::Notified) => LifecycleState::ReadingBack,
            (LifecycleState::DeletingForRecreate, LifecycleEvent::Deleted(done)) => match done {
                Ok(_) => LifecycleState::CreatingDirectory { recreate: true },
                Err(m) => LifecycleState::Finished(
                    engine_failure(LayerLifecycleError::CannotDeleteLayer(m)),
                ),
            },
            (
                LifecycleState::CreatingDirectory { recreate },
                LifecycleEvent::DirectoryCreated(done),
            ) => match done {
                Ok(_) => LifecycleState::Creating,
                Err(m) => LifecycleState::Finished(
                    engine_failure(
                        if recreate {
                            LayerLifecycleError::CannotDeleteLayer(m)
                        } else {
                            LayerLifecycleError::CannotCreateLayerDirectoryBeforeCreate(m)
                        },
                    ),
                ),
            },
            (LifecycleState::Creating, LifecycleEvent::Created(created)) => match created {
                Ok(record) => LifecycleState::WritingMetadata(record),
                Err(e) => LifecycleState::Finished(buildpack_failure(e)),
            },
            (LifecycleState::Updating(_), LifecycleEvent::Updated(updated)) => match updated {
                Ok(record) => LifecycleState::WritingMetadata(record),
                Err(e) => LifecycleState::Finished(buildpack_failure(e)),
            },
            (LifecycleState::WritingMetadata(_), LifecycleEvent::Written(done)) => match done {
                Ok(_) => LifecycleState::ReadingBack,
                Err(m) => LifecycleState::Finished(
                    engine_failure(LayerLifecycleError::CannotWriteLayerMetadata(m)),
                ),
            },
            (LifecycleState::ReadingBack, LifecycleEvent::TypedRead(read)) => match read {
                Ok(Some(record)) => LifecycleState::ComputingData(record),
                Ok(None) => LifecycleState::Finished(
                    engine_failure(LayerLifecycleError::CannotFindLayerMetadataAfterLifecycle()),
                ),
                Err(m) => LifecycleState::Finished(
                    engine_failure(LayerLifecycleError::CannotReadLayerContentMetadata(m)),
                ),
            },
            (LifecycleState::ComputingData(_), LifecycleEvent::Computed(output)) => match output {
                Ok(o) => LifecycleState::Finished(Ok(o)),
                Err(e) => LifecycleState::Finished(buildpack_failure(e)),
            },
            (state, _) => state,
        }
    }

    /// The state after the host answered with each of `events` in turn.
    pub open spec fn run(self, events: Seq<LifecycleEvent<M, U, O, E>>) -> Self
        decreases events.len(),
    {
        if events.len() == 0 {
            self
        } else {
            self.run(events.drop_last()).next(events.last())
        }
    }

    /// Moves the lifecycle on by the host's answer `event`.
    pub fn advance(self, event: LifecycleEvent<M, U, O, E>) -> (r: Self)
        ensures
            r == self.next(event),
    {
        match (self, event) {
            (LifecycleState::ReadingMetadata, LifecycleEvent::TypedRead(read)) => match read {
                Ok(Some(record)) => LifecycleState::Validating(record),
                Ok(None) => LifecycleState::CreatingDirectory { recreate: false },
                Err(_) => LifecycleState::ReadingUntypedMetadata,
            },
            (LifecycleState::ReadingUntypedMetadata, LifecycleEvent::UntypedRead(read)) => match read {
                Ok(Some(record)) => LifecycleState::Recovering(record),
                Ok(None) => LifecycleState::CreatingDirectory { recreate: false },
                Err(m) => LifecycleState::Finished(
                    Err(Error::LayerLifecycleError(LayerLifecycleError::CannotNotReadUntypedLayerMetadata(m))),
                ),
            },
            (LifecycleState::Recovering(record), LifecycleEvent::Recovered(strategy)) => match strategy {
                Ok(MetadataRecoveryStrategy::DeleteLayer) => LifecycleState::DeletingInvalidLayer,
                Ok(MetadataRecoveryStrategy::ReplaceMetadata(payload)) => LifecycleState::ReplacingMetadata(
                    record.with_metadata(payload),
                ),
                Err(e) => LifecycleState::Finished(Err(Error::BuildpackError(e))),
            },
            (LifecycleState::DeletingInvalidLayer, LifecycleEvent::Deleted(done)) => match done {
                Ok(_) => LifecycleState::CreatingDirectory { recreate: false },
                Err(m) => LifecycleState::Finished(
                    Err(Error::LayerLifecycleError(LayerLifecycleError::CannotDeleteLayer(m))),
                ),
            },
            (LifecycleState::ReplacingMetadata(record), LifecycleEvent::Written(done)) => match done {
                Ok(_) => LifecycleState::Validating(record),
                Err(m) => LifecycleState::Finished(
                    Err(Error::LayerLifecycleError(LayerLifecycleError::CannotReplaceLayerMetadata(m))),
                ),
            },
            (LifecycleState::Validating(record), LifecycleEvent::Validated(result)) => match result {
                ValidateResult::KeepLayer => LifecycleState::Keeping,
                ValidateResult::RecreateLayer => LifecycleState::DeletingForRecreate,
                ValidateResult::UpdateLayer => LifecycleState::Updating(record),
            },
            (LifecycleState::Keeping, LifecycleEvent::Notified) => LifecycleState::ReadingBack,
            (LifecycleState::DeletingForRecreate, LifecycleEvent::Deleted(done)) => match done {
                Ok(_) => LifecycleState::CreatingDirectory { recreate: true },
                Err(m) => LifecycleState::Finished(
                    Err(Error::LayerLifecycleError(LayerLifecycleError::CannotDeleteLayer(m))),
                ),
            },
            (
                LifecycleState::CreatingDirectory { recreate },
                LifecycleEvent::DirectoryCreated(done),
            ) => match done {
                Ok(_) => LifecycleState::Creating,
                Err(m) => {
                    // A directory that cannot be made again after a delete counts as a
                    // failed delete.
                    let e = if recreate {
                        LayerLifecycleError::CannotDeleteLayer(m)
                    } else {
                        LayerLifecycleError::CannotCreateLayerDirectoryBeforeCreate(m)
                    };
                    LifecycleState::Finished(Err(Error::LayerLifecycleError(e)))
                },
            },
            (LifecycleState::Creating, LifecycleEvent::Created(created)) => match created {
                Ok(record) => LifecycleState::WritingMetadata(record),
                Err(e) => LifecycleState::Finished(Err(Error::BuildpackError(e))),
            },
            (LifecycleState::Updating(_), LifecycleEvent::Updated(updated)) => match updated {
                Ok(record) => LifecycleState::WritingMetadata(record),
                Err(e) => LifecycleState::Finished(Err(Error::BuildpackError(e))),
            },
            (LifecycleState::WritingMetadata(_), LifecycleEvent::Written(done)) => match done {
                Ok(_) => LifecycleState::ReadingBack,
                Err(m) => LifecycleState::Finished(
                    Err(Error::LayerLifecycleError(LayerLifecycleError::CannotWriteLayerMetadata(m))),
                ),
            },
            (LifecycleState::ReadingBack, LifecycleEvent::TypedRead(read)) => match read {
                Ok(Some(record)) => LifecycleState::ComputingData(record),
                Ok(None) => LifecycleState::Finished(
                    Err(Error::LayerLifecycleError(LayerLifecycleError::CannotFindLayerMetadataAfterLifecycle())),
                ),
                Err(m) => LifecycleState::Finished(
                    Err(Error::LayerLifecycleError(LayerLifecycleError::CannotReadLayerContentMetadata(m))),
                ),
            },
            (LifecycleState::ComputingData(_), LifecycleEvent::Computed(output)) => match output {
                Ok(o) => LifecycleState::Finished(Ok(o)),
                Err(e) => LifecycleState::Finished(Err(Error::BuildpackError(e))),
            },
            (state, _) => state,
        }
    }

    /// The state a lifecycle starts in.
    pub fn new() -> (r: Self)
        ensures
            r == LifecycleState::<M, U, O, E>::ReadingMetadata,
    {
        LifecycleState::ReadingMetadata
    }

    /// Whether the lifecycle is over.
    pub fn is_finished(&self) -> (r: bool)
        ensures
            r == self is Finished,
    {
        matches!(self, LifecycleState::Finished(_))
    }
}

} // verus!
