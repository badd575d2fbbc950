//! The index synchronization loop.
//!
//! The loop consumes stored-document notifications from a message bus,
//! drives each through fetch, parse and index, announces the outcome on an
//! indexed or failed topic, and commits buffered index writes either on a
//! periodic sync tick or on demand. Commands from the control surface take
//! priority over all other work.
//!
//! The host process performs the outside work (bus, object store, index):
//! each step of the loop is a verified decision function here, which takes
//! the outcome of that work as an argument and says exactly how the state
//! and the announced messages change.

use vstd::prelude::*;
use vstd::string::StringExecFns;

use crate::status::{Command, IndexerStatus};

verus! {

/// Notification that a document has been placed in object storage,
/// carrying enough information to retrieve it.
pub struct StoredEvent {
    pub reference: String,
    pub digest: Option<String>,
}

/// Mathematical image of a stored event.
#[verifier::ext_equal]
pub struct EventModel {
    pub reference: Seq<char>,
    pub digest: Option<Seq<char>>,
}

impl View for StoredEvent {
    type V = EventModel;

    open spec fn view(&self) -> EventModel {
        EventModel {
            reference: self.reference@,
            digest: match self.digest {
                Some(d) => Some(d@),
                None => None,
            },
        }
    }
}

/// Message published on the failed topic: the reference of a document that
/// could not be indexed, and a human-readable reason.
pub struct FailureNotice {
    pub reference: String,
    pub reason: String,
}

/// Mathematical image of a failure notice.
#[verifier::ext_equal]
pub struct FailureModel {
    pub reference: Seq<char>,
    pub reason: Seq<char>,
}

impl View for FailureNotice {
    type V = FailureModel;

    open spec fn view(&self) -> FailureModel {
        FailureModel { reference: self.reference@, reason: self.reason@ }
    }
}

/// Outcome of running one stored event through fetch, parse and index
/// write, as reported by the host that performed the outside work.
#[derive(Clone, Copy, Debug, PartialEq, Eq, Structural)]
pub enum EventResult {
    /// The document was fetched, parsed and accepted by the index; its
    /// visibility still awaits the next commit.
    Indexed,
    /// The object store has no document under the reference.
    FetchNotFound,
    /// The object store could not deliver the document right now.
    FetchTransient,
    /// The object store is unreachable; the loop cannot make progress.
    FetchFatal,
    /// The fetched bytes did not parse as a document.
    ParseFailed,
    /// The index rejected the write; the single event is treated as failed.
    WriteRefused,
    /// The index reported corruption; the loop cannot make progress.
    IndexCorrupted,
}

/// What the host must do after the loop handled a command.
#[derive(Clone, Copy, Debug, PartialEq, Eq, Structural)]
pub enum CommandAction {
    /// Nothing beyond the state change: go on multiplexing.
    Proceed,
    /// Commit the index now and report the result.
    Commit,
    /// Stop the loop and return control to the host process.
    Exit,
}

/// Which of the three input sources the loop services next.
#[derive(Clone, Copy, Debug, PartialEq, Eq, Structural)]
pub enum SourceChoice {
    /// A pending command: always first, for administrative responsiveness.
    Control,
    /// A sync tick: commit the index.
    Sync,
    /// A queued stored event: admit it for processing.
    Admit,
    /// Nothing is ready (or events are held back): suspend.
    Wait,
}

/// The views of the elements of a sequence.
pub open spec fn views<T: View>(s: Seq<T>) -> Seq<T::V> {
    Seq::new(s.len(), |i: int| s[i]@)
}

/// Mathematical state of the loop: configuration, lifecycle, the events
/// delivered but not yet consumed, the index writes awaiting a commit, the
/// committed (searcher-visible) index contents, and the references
/// announced so far on each output topic.
#[verifier::ext_equal]
pub struct LoopModel {
    pub stored_topic: Seq<char>,
    pub indexed_topic: Seq<char>,
    pub failed_topic: Seq<char>,
    pub sync_interval: u64,
    pub status: IndexerStatus,
    pub resume_status: IndexerStatus,
    pub inbox: Seq<EventModel>,
    pub pending: Seq<Seq<char>>,
    pub visible: Seq<Seq<char>>,
    pub indexed: Seq<Seq<char>>,
    pub failed: Seq<FailureModel>,
}

/// Everything the index holds, committed or still buffered.
pub open spec fn index_refs(m: LoopModel) -> Seq<Seq<char>> {
    m.visible + m.pending
}

/// Whether the index already holds an entry for a reference.
pub open spec fn index_has(m: LoopModel, reference: Seq<char>) -> bool {
    index_refs(m).contains(reference)
}

/// The index never holds two entries for one reference: writes are keyed
/// by the reference, so redelivery of a stored event cannot duplicate.
pub open spec fn wf(m: LoopModel) -> bool {
    index_refs(m).no_duplicates()
}

/// The state a freshly configured loop starts in: `Running`, with nothing
/// queued, buffered, committed or announced.
pub open spec fn init_model(
    stored_topic: Seq<char>,
    indexed_topic: Seq<char>,
    failed_topic: Seq<char>,
    sync_interval: u64,
) -> LoopModel {
    LoopModel {
        stored_topic,
        indexed_topic,
        failed_topic,
        sync_interval,
        status: IndexerStatus::Running,
        resume_status: IndexerStatus::Running,
        inbox: Seq::empty(),
        pending: Seq::empty(),
        visible: Seq::empty(),
        indexed: Seq::empty(),
        failed: Seq::empty(),
    }
}

/// A stored event arrives from the bus: it joins the back of the queue and
/// nothing else moves. In particular no output message is produced, in
/// whatever state the loop is.
pub open spec fn apply_deliver(m: LoopModel, event: EventModel) -> LoopModel {
    LoopModel { inbox: m.inbox.push(event), ..m }
}

/// The state change a command works. `Pause` and `Resume` switch between
/// `Paused` and `Running`; `ForceSync` parks the loop in `Reindexing`
/// until the host reports the commit it owes; `Shutdown` is terminal.
/// `Stopping` absorbs `Pause` and `Resume`: a loop already told to stop
/// keeps stopping.
pub open spec fn apply_command(m: LoopModel, command: Command) -> LoopModel {
    match command {
        Command::Pause => {
            if m.status is Stopping {
                m
            } else {
                LoopModel { status: IndexerStatus::Paused, ..m }
            }
        },
        Command::Resume => {
            if m.status is Stopping {
                m
            } else {
                LoopModel { status: IndexerStatus::Running, ..m }
            }
        },
        Command::ForceSync => LoopModel {
            status: IndexerStatus::Reindexing,
            resume_status: m.status,
            ..m
        },
        Command::Shutdown => LoopModel { status: IndexerStatus::Stopping, ..m },
    }
}

/// What the host owes after each command: a commit for `ForceSync`, an
/// exit for `Shutdown`, nothing more for the rest.
pub open spec fn spec_command_action(command: Command) -> CommandAction {
    match command {
        Command::Pause => CommandAction::Proceed,
        Command::Resume => CommandAction::Proceed,
        Command::ForceSync => CommandAction::Commit,
        Command::Shutdown => CommandAction::Exit,
    }
}

/// The host reports a commit attempt. On success every buffered write
/// becomes visible, in order; on failure nothing moves and the buffered
/// writes wait for the next tick. Either way a loop parked in
/// `Reindexing` returns to the state it held before the forced sync.
pub open spec fn apply_commit(m: LoopModel, ok: bool) -> LoopModel {
    let status = if m.status is Reindexing {
        m.resume_status
    } else {
        m.status
    };
    if ok {
        LoopModel { status, pending: Seq::empty(), visible: m.visible + m.pending, ..m }
    } else {
        LoopModel { status, ..m }
    }
}

/// An event may be admitted for processing only while the loop is
/// `Running` and the queue is nonempty: pausing or stopping holds events
/// back without dropping them.
pub open spec fn can_admit(m: LoopModel) -> bool {
    m.status is Running && m.inbox.len() > 0
}

/// Admitting an event consumes the front of the queue — events are
/// processed in delivery order — and changes nothing else.
pub open spec fn apply_admit(m: LoopModel) -> LoopModel {
    LoopModel { inbox: m.inbox.drop_first(), ..m }
}

/// The reason published with each failure outcome.
pub open spec fn spec_failure_reason(result: EventResult) -> Seq<char> {
    match result {
        EventResult::FetchNotFound => "not found"@,
        EventResult::FetchTransient => "temporarily unavailable"@,
        EventResult::ParseFailed => "failed to parse"@,
        EventResult::WriteRefused => "index write failed"@,
        _ => Seq::empty(),
    }
}

/// Whether an outcome ends the loop: the store being unreachable or the
/// index being corrupt leaves no way to make progress.
pub open spec fn result_is_fatal(result: EventResult) -> bool {
    result is FetchFatal || result is IndexCorrupted
}

/// Whether an outcome is a per-event failure, announced on the failed
/// topic and isolated from every other event.
pub open spec fn result_is_failure(result: EventResult) -> bool {
    result is FetchNotFound || result is FetchTransient || result is ParseFailed
        || result is WriteRefused
}

/// How one admitted event's outcome changes the state. Success appends
/// exactly one reference to the indexed topic and — unless the index
/// already holds that reference — exactly one buffered write. A failure
/// appends exactly one notice to the failed topic and leaves the index
/// untouched; the event counts as handled and is not retried. A fatal
/// outcome moves the loop to `Stopping` and announces nothing.
pub open spec fn apply_event(m: LoopModel, event: EventModel, result: EventResult) -> LoopModel {
    if result is Indexed {
        LoopModel {
            pending: if index_has(m, event.reference) {
                m.pending
            } else {
                m.pending.push(event.reference)
            },
            indexed: m.indexed.push(event.reference),
            ..m
        }
    } else if result_is_failure(result) {
        LoopModel {
            failed: m.failed.push(
                FailureModel { reference: event.reference, reason: spec_failure_reason(result) },
            ),
            ..m
        }
    } else {
        LoopModel { status: IndexerStatus::Stopping, ..m }
    }
}

/// The synchronization loop's state, as mirrored by the host that runs it.
///
/// The view of a value of this type is a [`LoopModel`]; every method's
/// contract says how that model moves. The host owns the outside
/// capabilities (bus, object store, index) and calls one method per
/// multiplexer iteration, handing in what the outside work returned.
pub struct Indexer {
    pub stored_topic: String,
    pub indexed_topic: String,
    pub failed_topic: String,
    pub sync_interval: u64,
    pub status: IndexerStatus,
    pub resume_status: IndexerStatus,
    pub inbox: Vec<StoredEvent>,
    pub pending: Vec<String>,
    pub visible: Vec<String>,
    pub indexed_out: Vec<String>,
    pub failed_out: Vec<FailureNotice>,
}

impl View for Indexer {
    type V = LoopModel;

    open spec fn view(&self) -> LoopModel {
        LoopModel {
            stored_topic: self.stored_topic@,
            indexed_topic: self.indexed_topic@,
            failed_topic: self.failed_topic@,
            sync_interval: self.sync_interval,
            status: self.status,
            resume_status: self.resume_status,
            inbox: views(self.inbox@),
            pending: views(self.pending@),
            visible: views(self.visible@),
            indexed: views(self.indexed_out@),
            failed: views(self.failed_out@),
        }
    }
}

impl Indexer {
    /// Configure a fresh loop. It starts `Running` with nothing queued,
    /// buffered, committed or announced.
    pub fn new(
        stored_topic: String,
        indexed_topic: String,
        failed_topic: String,
        sync_interval: u64,
    ) -> (indexer: Indexer)
        ensures
            indexer@ == init_model(stored_topic@, indexed_topic@, failed_topic@, sync_interval),
            wf(indexer@),
    {
        let ghost st = stored_topic@;
        let ghost it = indexed_topic@;
        let ghost ft = failed_topic@;
        let indexer = Indexer {
            stored_topic,
            indexed_topic,
            failed_topic,
            sync_interval,
            status: IndexerStatus::Running,
            resume_status: IndexerStatus::Running,
            inbox: Vec::new(),
            pending: Vec::new(),
            visible: Vec::new(),
            indexed_out: Vec::new(),
            failed_out: Vec::new(),
        };
        proof {
            assert(indexer@ =~= init_model(st, it, ft, sync_interval));
            assert(index_refs(indexer@) =~= Seq::<Seq<char>>::empty());
        }
        indexer
    }

    /// A stored event arrives from the bus. It joins the back of the
    /// queue; no output is produced and the index does not move, whatever
    /// the current status — delivery alone consumes nothing.
    pub fn deliver(&mut self, event: StoredEvent)
        ensures
            final(self)@ == apply_deliver(old(self)@, event@),
            wf(old(self)@) ==> wf(final(self)@),
    {
        let ghost ev = event@;
        self.inbox.push(event);
        proof {
            assert(self@ =~= apply_deliver(old(self)@, ev));
            assert(index_refs(self@) =~= index_refs(old(self)@));
        }
    }

    /// Apply one administrative command. The state change is visible in
    /// the status before the method returns — and so, the channel holding
    /// at most one command, before the sender can issue the next. The
    /// returned action is what the host owes: a commit for `ForceSync`,
    /// an exit for `Shutdown`.
    pub fn handle_command(&mut self, command: Command) -> (action: CommandAction)
        ensures
            final(self)@ == apply_command(old(self)@, command),
            action == spec_command_action(command),
            wf(old(self)@) ==> wf(final(self)@),
    {
        let action = match command {
            Command::Pause => {
                if self.status != IndexerStatus::Stopping {
                    self.status = IndexerStatus::Paused;
                }
                CommandAction::Proceed
            },
            Command::Resume => {
                if self.status != IndexerStatus::Stopping {
                    self.status = IndexerStatus::Running;
                }
                CommandAction::Proceed
            },
            Command::ForceSync => {
                self.resume_status = self.status;
                self.status = IndexerStatus::Reindexing;
                CommandAction::Commit
            },
            Command::Shutdown => {
                self.status = IndexerStatus::Stopping;
                CommandAction::Exit
            },
        };
        proof {
            assert(self@ =~= apply_command(old(self)@, command));
            assert(index_refs(self@) =~= index_refs(old(self)@));
        }
        action
    }

    /// The host reports the result of a commit it performed, whether owed
    /// to a sync tick or to a forced sync. On success every buffered
    /// write becomes visible, in write order, after everything committed
    /// before; on failure the writes stay buffered for the next tick, and
    /// the loop itself keeps going — a failed commit only defers
    /// visibility. A loop parked in `Reindexing` returns to its prior
    /// state either way.
    pub fn commit_applied(&mut self, ok: bool)
        ensures
            final(self)@ == apply_commit(old(self)@, ok),
            wf(old(self)@) ==> wf(final(self)@),
    {
        if self.status == IndexerStatus::Reindexing {
            self.status = self.resume_status;
        }
        if ok {
            self.visible.append(&mut self.pending);
        }
        proof {
            assert(self@ =~= apply_commit(old(self)@, ok));
            assert(index_refs(self@) =~= index_refs(old(self)@));
        }
    }

    /// Admit the next stored event for processing. Events are handed out
    /// strictly in delivery order, and only while the loop is `Running`:
    /// a paused or stopping loop returns `None` and leaves the queue as
    /// it is, so nothing is lost while consumption is held back.
    pub fn take_event(&mut self) -> (admitted: Option<StoredEvent>)
        ensures
            can_admit(old(self)@) ==> admitted is Some && admitted.unwrap()@ == old(
                self,
            )@.inbox[0] && final(self)@ == apply_admit(old(self)@),
            !can_admit(old(self)@) ==> admitted is None && final(self)@ == old(self)@,
            wf(old(self)@) ==> wf(final(self)@),
    {
        if self.status == IndexerStatus::Running && self.inbox.len() > 0 {
            let event = self.inbox.remove(0);
            proof {
                assert(self@ =~= apply_admit(old(self)@));
                assert(index_refs(self@) =~= index_refs(old(self)@));
            }
            Some(event)
        } else {
            None
        }
    }

    /// Whether the index, committed or still buffered, already holds an
    /// entry for the reference.
    pub fn contains_reference(&self, reference: &String) -> (found: bool)
        ensures
            found == index_has(self@, reference@),
    {
        let in_visible = vec_holds_reference(&self.visible, reference);
        let in_pending = vec_holds_reference(&self.pending, reference);
        proof {
            lemma_contains_concat(views(self.visible@), views(self.pending@), reference@);
        }
        in_visible || in_pending
    }

    /// Record the outcome of one admitted event, reported by the host
    /// that performed the fetch, parse and index write.
    ///
    /// Success announces the reference on the indexed topic, exactly
    /// once, and buffers the write unless the index already holds the
    /// reference — redelivery cannot duplicate an entry. A failure
    /// announces reference and reason on the failed topic, exactly once,
    /// and leaves the index untouched; the event counts as handled and no
    /// other event is affected. A fatal outcome announces nothing and
    /// moves the loop to `Stopping`; the returned flag tells the host to
    /// stop.
    pub fn process_event(&mut self, event: StoredEvent, result: EventResult) -> (fatal: bool)
        requires
            old(self)@.status is Running,
        ensures
            final(self)@ == apply_event(old(self)@, event@, result),
            fatal == result_is_fatal(result),
            wf(old(self)@) ==> wf(final(self)@),
    {
        let ghost ev = event@;
        let ghost m0 = self@;
        if matches!(result, EventResult::Indexed) {
            let already = self.contains_reference(&event.reference);
            self.indexed_out.push(event.reference.clone());
            if !already {
                self.pending.push(event.reference);
            }
            proof {
                assert(self@ =~= apply_event(m0, ev, result));
                if wf(m0) {
                    if index_has(m0, ev.reference) {
                        assert(index_refs(self@) =~= index_refs(m0));
                    } else {
                        assert(index_refs(self@) =~= index_refs(m0).push(ev.reference));
                        lemma_no_duplicates_push(index_refs(m0), ev.reference);
                    }
                }
            }
            false
        } else if matches!(result, EventResult::FetchFatal | EventResult::IndexCorrupted) {
            self.status = IndexerStatus::Stopping;
            proof {
                assert(self@ =~= apply_event(m0, ev, result));
                assert(index_refs(self@) =~= index_refs(m0));
            }
            true
        } else {
            let reason = failure_reason(result);
            self.failed_out.push(FailureNotice { reference: event.reference, reason });
            proof {
                assert(self@ =~= apply_event(m0, ev, result));
                assert(index_refs(self@) =~= index_refs(m0));
            }
            false
        }
    }

    /// One multiplexer decision: which ready source the loop services
    /// next. Commands always come first, for administrative
    /// responsiveness; then the sync timer; a queued event is admitted
    /// last, and only while `Running`. When nothing qualifies the loop
    /// suspends — it never polls busily.
    pub fn choose_source(&self, command_ready: bool, tick_fired: bool, event_ready: bool) -> (choice:
        SourceChoice)
        ensures
            (choice is Control) <==> command_ready,
            (choice is Sync) <==> (!command_ready && tick_fired),
            (choice is Admit) <==> (!command_ready && !tick_fired && event_ready && self@.status
                is Running),
            (choice is Wait) <==> (!command_ready && !tick_fired && !(event_ready && self@.status
                is Running)),
    {
        if command_ready {
            SourceChoice::Control
        } else if tick_fired {
            SourceChoice::Sync
        } else if event_ready && self.status == IndexerStatus::Running {
            SourceChoice::Admit
        } else {
            SourceChoice::Wait
        }
    }
}

/// The reason string published with each failure outcome.
pub fn failure_reason(result: EventResult) -> (reason: String)
    ensures
        reason@ == spec_failure_reason(result),
{
    match result {
        EventResult::FetchNotFound => String::from_str("not found"),
        EventResult::FetchTransient => String::from_str("temporarily unavailable"),
        EventResult::ParseFailed => String::from_str("failed to parse"),
        EventResult::WriteRefused => String::from_str("index write failed"),
        _ => String::new(),
    }
}

/// Whether a list of references holds the given one.
fn vec_holds_reference(list: &Vec<String>, reference: &String) -> (found: bool)
    ensures
        found == views(list@).contains(reference@),
{
    let mut i: usize = 0;
    while i < list.len()
        invariant
            i <= list.len(),
            forall|j: int| 0 <= j < i ==> views(list@)[j] != reference@,
        decreases list.len() - i,
    {
        if list[i] == *reference {
            proof {
                assert(views(list@).contains(reference@)) by {
                    assert(views(list@)[i as int] == reference@);
                }
            }
            return true;
        }
        i += 1;
    }
    proof {
        assert(!views(list@).contains(reference@)) by {
            assert(forall|j: int| 0 <= j < views(list@).len() ==> views(list@)[j] != reference@);
        }
    }
    false
}

/// Deliveries folded over a batch of events, oldest first.
pub open spec fn deliver_all(m: LoopModel, events: Seq<EventModel>) -> LoopModel
    decreases events.len(),
{
    if events.len() == 0 {
        m
    } else {
        deliver_all(apply_deliver(m, events[0]), events.drop_first())
    }
}

/// A stored event whose document fetches, parses and is accepted by the
/// index yields exactly one announcement on the indexed topic and none on
/// the failed topic; its reference is in the index at once, and is
/// visible to searchers from the first successful commit after the
/// announcement — a commit the sync scheduler owes within one interval.
pub proof fn lemma_indexed_once_then_visible(m: LoopModel, event: EventModel)
    ensures
        apply_event(m, event, EventResult::Indexed).indexed =~= m.indexed.push(event.reference),
        apply_event(m, event, EventResult::Indexed).failed =~= m.failed,
        index_has(apply_event(m, event, EventResult::Indexed), event.reference),
        apply_commit(apply_event(m, event, EventResult::Indexed), true).visible.contains(
            event.reference,
        ),
{
    let m1 = apply_event(m, event, EventResult::Indexed);
    lemma_contains_concat(m.visible, m.pending, event.reference);
    lemma_contains_concat(m1.visible, m1.pending, event.reference);
    if !index_has(m, event.reference) {
        assert(m1.pending[m1.pending.len() - 1] == event.reference);
        assert(m1.pending.contains(event.reference));
    }
    assert(apply_commit(m1, true).visible == index_refs(m1));
}

/// A stored event whose document fails to fetch or to parse — or whose
/// write the index refuses — yields exactly one announcement on the
/// failed topic, carrying its reference and the reason, and none on the
/// indexed topic; no index entry is created for the reference, and the
/// loop's state is otherwise untouched: the failure is isolated to the
/// one event.
pub proof fn lemma_failure_announced_once(m: LoopModel, event: EventModel, result: EventResult)
    requires
        result_is_failure(result),
    ensures
        apply_event(m, event, result).failed =~= m.failed.push(
            (FailureModel { reference: event.reference, reason: spec_failure_reason(result) }),
        ),
        apply_event(m, event, result).indexed =~= m.indexed,
        index_refs(apply_event(m, event, result)) =~= index_refs(m),
        apply_event(m, event, result).status == m.status,
        !index_has(m, event.reference) ==> !index_has(apply_event(m, event, result), event.reference),
{
}

/// Redelivering a stored event cannot duplicate: indexing a reference the
/// index already holds leaves the index as it is, so a second successful
/// delivery of one reference changes nothing, and in a well-formed loop
/// the index holds exactly one entry for a reference once it is indexed.
pub proof fn lemma_redelivery_idempotent(m: LoopModel, event: EventModel)
    requires
        wf(m),
    ensures
        wf(apply_event(m, event, EventResult::Indexed)),
        index_refs(
            apply_event(apply_event(m, event, EventResult::Indexed), event, EventResult::Indexed),
        ) =~= index_refs(apply_event(m, event, EventResult::Indexed)),
        index_refs(apply_event(m, event, EventResult::Indexed)).to_multiset().count(event.reference)
            == 1,
{
    let m1 = apply_event(m, event, EventResult::Indexed);
    lemma_contains_concat(m.visible, m.pending, event.reference);
    lemma_contains_concat(m1.visible, m1.pending, event.reference);
    if index_has(m, event.reference) {
        assert(index_refs(m1) =~= index_refs(m));
    } else {
        assert(m1.pending[m1.pending.len() - 1] == event.reference);
        assert(m1.pending.contains(event.reference));
        assert(index_refs(m1) =~= index_refs(m).push(event.reference));
        lemma_no_duplicates_push(index_refs(m), event.reference);
    }
    assert(index_has(m1, event.reference));
    index_refs(m1).to_multiset_ensures();
    index_refs(m1).lemma_multiset_has_no_duplicates();
    assert(index_refs(m1).to_multiset().count(event.reference) > 0);
}

/// While the loop is paused, events keep arriving but nothing is
/// consumed: no indexed or failed announcement is produced, the index
/// does not move, and every delivery queues behind the others. The
/// resume command releases the queue exactly as it accumulated, so the
/// held events are then admitted in their original delivery order.
pub proof fn lemma_paused_holds_events(m: LoopModel, events: Seq<EventModel>)
    requires
        m.status is Paused,
    ensures
        deliver_all(m, events).status is Paused,
        deliver_all(m, events).indexed =~= m.indexed,
        deliver_all(m, events).failed =~= m.failed,
        index_refs(deliver_all(m, events)) =~= index_refs(m),
        deliver_all(m, events).inbox =~= m.inbox + events,
        !can_admit(deliver_all(m, events)),
        apply_command(deliver_all(m, events), Command::Resume).status is Running,
        apply_command(deliver_all(m, events), Command::Resume).inbox =~= m.inbox + events,
    decreases events.len(),
{
    if events.len() == 0 {
        assert(m.inbox + events =~= m.inbox);
    } else {
        lemma_paused_holds_events(apply_deliver(m, events[0]), events.drop_first());
        assert(m.inbox.push(events[0]) + events.drop_first() =~= m.inbox + events);
    }
}

/// A forced sync owes the host a commit at once — before any further
/// scheduled tick — and once the host reports it successful, every write
/// buffered when the command arrived is visible, the buffer is empty,
/// and the loop is back in the state it held before the command.
pub proof fn lemma_force_sync_commits_now(m: LoopModel)
    ensures
        spec_command_action(Command::ForceSync) is Commit,
        apply_commit(apply_command(m, Command::ForceSync), true).visible =~= m.visible + m.pending,
        apply_commit(apply_command(m, Command::ForceSync), true).pending =~= Seq::<Seq<char>>::empty(),
        apply_commit(apply_command(m, Command::ForceSync), true).status == m.status,
        wf(m) ==> wf(apply_commit(apply_command(m, Command::ForceSync), true)),
{
    let m2 = apply_commit(apply_command(m, Command::ForceSync), true);
    assert(index_refs(m2) =~= index_refs(m));
}

/// Membership in a concatenation is membership in either part.
proof fn lemma_contains_concat<A>(a: Seq<A>, b: Seq<A>, x: A)
    ensures
        (a + b).contains(x) <==> (a.contains(x) || b.contains(x)),
{
    if a.contains(x) {
        let i = choose|i: int| 0 <= i < a.len() && a[i] == x;
        assert((a + b)[i] == x);
    }
    if b.contains(x) {
        let i = choose|i: int| 0 <= i < b.len() && b[i] == x;
        assert((a + b)[a.len() + i] == x);
    }
    if (a + b).contains(x) {
        let i = choose|i: int| 0 <= i < (a + b).len() && (a + b)[i] == x;
        if i < a.len() {
            assert(a[i] == x);
        } else {
            assert(b[i - a.len()] == x);
        }
    }
}

/// Pushing a fresh element keeps a sequence free of duplicates.
proof fn lemma_no_duplicates_push<A>(s: Seq<A>, x: A)
    requires
        s.no_duplicates(),
        !s.contains(x),
    ensures
        s.push(x).no_duplicates(),
{
    assert forall|i: int, j: int| 0 <= i < j < s.push(x).len() implies s.push(x)[i] != s.push(x)[j] by {
        if j == s.len() {
            assert(s.push(x)[i] == s[i]);
            assert(s[i] != x);
        }
    }
}

} // verus!
