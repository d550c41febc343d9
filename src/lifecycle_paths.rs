//! What the layer lifecycle does along each of its paths, proved of every run.

use vstd::prelude::*;

use crate::data::layer::Layer as ContentMetadata;
use crate::layer_lifecycle::{
    buildpack_failure, engine_failure, LayerLifecycleError, LifecycleEvent, LifecycleState,
    MetadataRecoveryStrategy, ValidateResult,
};

verus! {

/// The state asks for `validate` or `update` on an existing record.
pub open spec fn uses_existing_record<M, U, O, E>(s: LifecycleState<M, U, O, E>) -> bool {
    s is Validating || s is Updating
}

/// The state asks the host to change the layer on disk, or to call `create` or `update`.
pub open spec fn changes_layer<M, U, O, E>(s: LifecycleState<M, U, O, E>) -> bool {
    s is ReplacingMetadata || s is WritingMetadata || s is DeletingInvalidLayer
        || s is DeletingForRecreate || s is CreatingDirectory || s is Creating || s is Updating
}

/// The states that come after `create` was answered.
pub open spec fn after_create<M, U, O, E>(s: LifecycleState<M, U, O, E>) -> bool {
    s is WritingMetadata || s is ReadingBack || s is ComputingData || s is Finished
}

/// The states of the path that creates a layer, from its directory on.
pub open spec fn creating_path<M, U, O, E>(s: LifecycleState<M, U, O, E>) -> bool {
    s is CreatingDirectory || s is Creating || after_create(s)
}

/// The states of the path that keeps a layer as it is.
pub open spec fn keeping_path<M, U, O, E>(s: LifecycleState<M, U, O, E>) -> bool {
    s is Keeping || s is ReadingBack || s is ComputingData || s is Finished
}

/// A property of states that every step keeps holds after any run.
pub proof fn lemma_run_keeps<M, U, O, E>(
    s: LifecycleState<M, U, O, E>,
    events: Seq<LifecycleEvent<M, U, O, E>>,
    p: spec_fn(LifecycleState<M, U, O, E>) -> bool,
)
    requires
        p(s),
        forall|t: LifecycleState<M, U, O, E>, e: LifecycleEvent<M, U, O, E>|
            p(t) ==> #[trigger] p(t.next(e)),
    ensures
        p(s.run(events)),
    decreases events.len(),
{
    if events.len() > 0 {
        lemma_run_keeps(s, events.drop_last(), p);
    }
}

/// Once a lifecycle is finished, nothing changes its outcome.
pub proof fn lemma_finished_is_final<M, U, O, E>(
    outcome: Result<O, crate::error::Error<E>>,
    events: Seq<LifecycleEvent<M, U, O, E>>,
)
    ensures
        LifecycleState::<M, U, O, E>::Finished(outcome).run(events) == LifecycleState::<
            M,
            U,
            O,
            E,
        >::Finished(outcome),
    decreases events.len(),
{
    if events.len() > 0 {
        lemma_finished_is_final::<M, U, O, E>(outcome, events.drop_last());
    }
}

/// A layer without content metadata is created: when the first read finds no record,
/// the layer's directory is made, `create` is called once its directory exists, what
/// `create` returns is what gets written, and no later state asks for `validate` or
/// `update`.
pub proof fn lemma_absent_layer_is_created<M, U, O, E>(
    created: ContentMetadata<M>,
    events: Seq<LifecycleEvent<M, U, O, E>>,
)
    ensures
        LifecycleState::<M, U, O, E>::ReadingMetadata.next(LifecycleEvent::TypedRead(Ok(None)))
            == (LifecycleState::<M, U, O, E>::CreatingDirectory { recreate: false }),
        (LifecycleState::<M, U, O, E>::CreatingDirectory { recreate: false }).next(
            LifecycleEvent::DirectoryCreated(Ok(())),
        ) == LifecycleState::<M, U, O, E>::Creating,
        LifecycleState::<M, U, O, E>::Creating.next(LifecycleEvent::Created(Ok(created)))
            == LifecycleState::<M, U, O, E>::WritingMetadata(created),
        LifecycleState::<M, U, O, E>::WritingMetadata(created).next(
            LifecycleEvent::Written(Ok(())),
        ) == LifecycleState::<M, U, O, E>::ReadingBack,
        !uses_existing_record(
            (LifecycleState::<M, U, O, E>::CreatingDirectory { recreate: false }).run(events),
        ),
{
    let p = |t: LifecycleState<M, U, O, E>| creating_path(t);
    lemma_run_keeps(LifecycleState::<M, U, O, E>::CreatingDirectory { recreate: false }, events, p);
}

/// `create` is called at most once in a lifecycle: after it answered, no run asks for
/// it again. Its record is written as it is; its error ends the lifecycle as the
/// buildpack's error.
pub proof fn lemma_create_answered_once<M, U, O, E>(
    created: Result<ContentMetadata<M>, E>,
    events: Seq<LifecycleEvent<M, U, O, E>>,
)
    ensures
        LifecycleState::<M, U, O, E>::Creating.next(LifecycleEvent::Created(created)) == (
        match created {
            Ok(record) => LifecycleState::<M, U, O, E>::WritingMetadata(record),
            Err(e) => LifecycleState::<M, U, O, E>::Finished(buildpack_failure(e)),
        }),
        !(LifecycleState::<M, U, O, E>::Creating.next(LifecycleEvent::Created(created)).run(
            events,
        ) is Creating),
{
    let p = |t: LifecycleState<M, U, O, E>| after_create(t);
    lemma_run_keeps(
        LifecycleState::<M, U, O, E>::Creating.next(LifecycleEvent::Created(created)),
        events,
        p,
    );
}

/// Keeping a layer leaves it alone: after `validate` says `KeepLayer`, no run writes
/// or deletes anything, nor calls `create` or `update`.
pub proof fn lemma_keep_changes_nothing<M, U, O, E>(
    record: ContentMetadata<M>,
    events: Seq<LifecycleEvent<M, U, O, E>>,
)
    ensures
        LifecycleState::<M, U, O, E>::Validating(record).next(
            LifecycleEvent::Validated(ValidateResult::KeepLayer),
        ) == LifecycleState::<M, U, O, E>::Keeping,
        !changes_layer(LifecycleState::<M, U, O, E>::Keeping.run(events)),
{
    let p = |t: LifecycleState<M, U, O, E>| keeping_path(t);
    lemma_run_keeps(LifecycleState::<M, U, O, E>::Keeping, events, p);
}

/// Recreating a layer deletes it, makes its directory again and calls `create`, whose
/// record is the one written; the old record is never used again.
pub proof fn lemma_recreate_replaces_layer<M, U, O, E>(
    record: ContentMetadata<M>,
    created: ContentMetadata<M>,
    events: Seq<LifecycleEvent<M, U, O, E>>,
)
    ensures
        LifecycleState::<M, U, O, E>::Validating(record).next(
            LifecycleEvent::Validated(ValidateResult::RecreateLayer),
        ) == LifecycleState::<M, U, O, E>::DeletingForRecreate,
        LifecycleState::<M, U, O, E>::DeletingForRecreate.next(LifecycleEvent::Deleted(Ok(())))
            == (LifecycleState::<M, U, O, E>::CreatingDirectory { recreate: true }),
        (LifecycleState::<M, U, O, E>::CreatingDirectory { recreate: true }).next(
            LifecycleEvent::DirectoryCreated(Ok(())),
        ) == LifecycleState::<M, U, O, E>::Creating,
        LifecycleState::<M, U, O, E>::Creating.next(LifecycleEvent::Created(Ok(created)))
            == LifecycleState::<M, U, O, E>::WritingMetadata(created),
        !uses_existing_record(LifecycleState::<M, U, O, E>::DeletingForRecreate.run(events)),
{
    let p = |t: LifecycleState<M, U, O, E>| t is DeletingForRecreate || creating_path(t);
    lemma_run_keeps(LifecycleState::<M, U, O, E>::DeletingForRecreate, events, p);
}

/// Invalid metadata that the buildpack chooses to delete: a failed typed read leads
/// to a schema-free read and to recovery; `DeleteLayer` deletes the layer, and after
/// that the lifecycle goes on exactly as for a layer that never existed.
pub proof fn lemma_invalid_metadata_deleted<M, U, O, E>(
    message: String,
    untyped: ContentMetadata<U>,
)
    ensures
        LifecycleState::<M, U, O, E>::ReadingMetadata.next(
            LifecycleEvent::TypedRead(Err(message)),
        ) == LifecycleState::<M, U, O, E>::ReadingUntypedMetadata,
        LifecycleState::<M, U, O, E>::ReadingUntypedMetadata.next(
            LifecycleEvent::UntypedRead(Ok(Some(untyped))),
        ) == LifecycleState::<M, U, O, E>::Recovering(untyped),
        LifecycleState::<M, U, O, E>::Recovering(untyped).next(
            LifecycleEvent::Recovered(Ok(MetadataRecoveryStrategy::DeleteLayer)),
        ) == LifecycleState::<M, U, O, E>::DeletingInvalidLayer,
        LifecycleState::<M, U, O, E>::DeletingInvalidLayer.next(LifecycleEvent::Deleted(Ok(())))
            == LifecycleState::<M, U, O, E>::ReadingMetadata.next(
            LifecycleEvent::TypedRead(Ok(None)),
        ),
{
}

/// Invalid metadata that the buildpack chooses to replace: the record written keeps
/// the flags of the schema-free read and holds the new payload, and once it is
/// written `validate` is called on exactly that record.
pub proof fn lemma_invalid_metadata_replaced<M, U, O, E>(
    untyped: ContentMetadata<U>,
    payload: M,
)
    ensures
        ({
            let replaced = ContentMetadata {
                launch: untyped.launch,
                build: untyped.build,
                cache: untyped.cache,
                metadata: payload,
            };
            &&& LifecycleState::<M, U, O, E>::Recovering(untyped).next(
                LifecycleEvent::Recovered(Ok(MetadataRecoveryStrategy::ReplaceMetadata(payload))),
            ) == LifecycleState::<M, U, O, E>::ReplacingMetadata(replaced)
            &&& LifecycleState::<M, U, O, E>::ReplacingMetadata(replaced).next(
                LifecycleEvent::Written(Ok(())),
            ) == LifecycleState::<M, U, O, E>::Validating(replaced)
        }),
{
}

/// The outcome rests on what is on disk after the lifecycle: when the record read back
/// is missing, the lifecycle fails with `CannotFindLayerMetadataAfterLifecycle`; a
/// successful outcome comes only from `layer_lifecycle_data`, and that is called only
/// on a record that was read back.
pub proof fn lemma_outcome_rests_on_read_back<M, U, O, E>(
    s: LifecycleState<M, U, O, E>,
    e: LifecycleEvent<M, U, O, E>,
)
    ensures
        LifecycleState::<M, U, O, E>::ReadingBack.next(LifecycleEvent::TypedRead(Ok(None)))
            == LifecycleState::<M, U, O, E>::Finished(
            engine_failure(LayerLifecycleError::CannotFindLayerMetadataAfterLifecycle()),
        ),
        s.next(e) matches LifecycleState::Finished(Ok(o)) ==> (s is Finished || (s is ComputingData
            && e == LifecycleEvent::<M, U, O, E>::Computed(Ok(o)))),
        s.next(e) matches LifecycleState::ComputingData(r) ==> (s is ComputingData || (
        s is ReadingBack && e == LifecycleEvent::<M, U, O, E>::TypedRead(Ok(Some(r))))),
{
}

} // verus!
