//! The development server's control loop, as a state machine: watch events
//! trigger rebuilds, rebuilds are strictly serialized, and every successful
//! rebuild fans one reload notice out to every currently subscribed stream.
//!
//! The machine decides; the surrounding program watches, rebuilds, serves
//! and pushes. Events arriving while a rebuild is in flight coalesce into
//! one pending trigger, so rapid successive edits cause one extra rebuild,
//! not one per event.

use vstd::prelude::*;

verus! {

/// Classification of one filesystem event of the watched input trees.
#[derive(Clone, Copy, PartialEq, Eq, Structural, Debug)]
pub enum FsEventKind {
    Create,
    Modify,
    Remove,
    /// Anything else (access, metadata-only notices, and so on).
    Other,
}

/// Creations, modifications and removals trigger a rebuild; other notices
/// do not.
pub open spec fn spec_triggers_rebuild(k: FsEventKind) -> bool {
    k != FsEventKind::Other
}

/// Whether one filesystem event causes a rebuild.
pub fn triggers_rebuild(k: FsEventKind) -> (r: bool)
    ensures
        r == spec_triggers_rebuild(k),
{
    match k {
        FsEventKind::Create => true,
        FsEventKind::Modify => true,
        FsEventKind::Remove => true,
        FsEventKind::Other => false,
    }
}

/// One event of the server loop.
#[derive(Clone, Copy, PartialEq, Eq, Structural, Debug)]
pub enum ServeEvent {
    /// The watcher reported a filesystem event of the given kind.
    FileChanged { kind: FsEventKind },
    /// The rebuild worker finished the build it was running.
    RebuildFinished { ok: bool },
    /// A browser opened a push stream, under a fresh stream id.
    Subscribed { id: u64 },
    /// A push stream closed.
    Unsubscribed { id: u64 },
}

/// What the server must do after one event: send one reload notice to each
/// listed stream, and start one rebuild if asked.
pub struct ServeDirective {
    pub notify: Vec<u64>,
    pub start_rebuild: bool,
}

/// Spec-level shape of a [`ServeDirective`].
pub struct DirectiveV {
    pub notify: Seq<u64>,
    pub start_rebuild: bool,
}

impl View for ServeDirective {
    type V = DirectiveV;

    open spec fn view(&self) -> DirectiveV {
        DirectiveV { notify: self.notify@, start_rebuild: self.start_rebuild }
    }
}

/// The server loop's state: whether a rebuild is in flight, whether more
/// changes arrived meanwhile, and the currently subscribed stream ids.
pub struct DevServerLoop {
    pub rebuilding: bool,
    pub pending: bool,
    pub subscribers: Vec<u64>,
}

/// Spec-level shape of a [`DevServerLoop`].
pub struct LoopV {
    pub rebuilding: bool,
    pub pending: bool,
    pub subscribers: Seq<u64>,
}

impl View for DevServerLoop {
    type V = LoopV;

    open spec fn view(&self) -> LoopV {
        LoopV {
            rebuilding: self.rebuilding,
            pending: self.pending,
            subscribers: self.subscribers@,
        }
    }
}

impl LoopV {
    /// Loop-state invariant: stream ids are unique, and changes can only be
    /// pending while a rebuild is in flight.
    pub open spec fn wf(&self) -> bool {
        self.subscribers.no_duplicates() && (self.pending ==> self.rebuilding)
    }
}

/// The subscriber list with every occurrence of `id` removed.
pub open spec fn spec_remove_id(subs: Seq<u64>, id: u64) -> Seq<u64>
    decreases subs.len(),
{
    if subs.len() == 0 {
        Seq::empty()
    } else if subs[0] == id {
        spec_remove_id(subs.drop_first(), id)
    } else {
        seq![subs[0]] + spec_remove_id(subs.drop_first(), id)
    }
}

proof fn lemma_remove_id_push(subs: Seq<u64>, id: u64, x: u64)
    ensures
        spec_remove_id(subs.push(x), id) == if x == id {
            spec_remove_id(subs, id)
        } else {
            spec_remove_id(subs, id) + seq![x]
        },
    decreases subs.len(),
{
    if subs.len() == 0 {
        assert(subs.push(x).len() == 1);
        assert(subs.push(x)[0] == x);
        assert(subs.push(x).drop_first() =~= Seq::<u64>::empty());
        assert(spec_remove_id(Seq::<u64>::empty(), id) == Seq::<u64>::empty());
        assert(spec_remove_id(subs, id) == Seq::<u64>::empty());
        if x == id {
            assert(spec_remove_id(subs.push(x), id) == spec_remove_id(
                subs.push(x).drop_first(),
                id,
            ));
            assert(spec_remove_id(subs.push(x), id) =~= spec_remove_id(subs, id));
        } else {
            assert(spec_remove_id(subs.push(x), id) == seq![x] + spec_remove_id(
                subs.push(x).drop_first(),
                id,
            ));
            assert(spec_remove_id(subs.push(x), id) =~= spec_remove_id(subs, id) + seq![x]);
        }
    } else {
        assert(subs.push(x).len() == subs.len() + 1);
        assert(subs.push(x)[0] == subs[0]);
        assert(subs.push(x).drop_first() =~= subs.drop_first().push(x));
        lemma_remove_id_push(subs.drop_first(), id, x);
        if subs[0] == id {
            assert(spec_remove_id(subs.push(x), id) == spec_remove_id(
                subs.drop_first().push(x),
                id,
            ));
            assert(spec_remove_id(subs, id) == spec_remove_id(subs.drop_first(), id));
        } else {
            assert(spec_remove_id(subs.push(x), id) == seq![subs[0]] + spec_remove_id(
                subs.drop_first().push(x),
                id,
            ));
            assert(spec_remove_id(subs, id) == seq![subs[0]] + spec_remove_id(
                subs.drop_first(),
                id,
            ));
        }
        if x == id {
            assert(spec_remove_id(subs.push(x), id) =~= spec_remove_id(subs, id));
        } else {
            assert(spec_remove_id(subs.push(x), id) =~= spec_remove_id(subs, id) + seq![x]);
        }
    }
}

/// Removal keeps none of the removed id, only ids the list already had,
/// and no duplicates.
pub proof fn lemma_remove_id_exact(subs: Seq<u64>, id: u64)
    ensures
        forall|k: int|
            0 <= k < spec_remove_id(subs, id).len() ==> #[trigger] spec_remove_id(subs, id)[k]
                != id,
        forall|x: u64| spec_remove_id(subs, id).contains(x) ==> subs.contains(x),
        subs.no_duplicates() ==> spec_remove_id(subs, id).no_duplicates(),
    decreases subs.len(),
{
    let r = spec_remove_id(subs, id);
    if subs.len() > 0 {
        let tail = subs.drop_first();
        let rt = spec_remove_id(tail, id);
        lemma_remove_id_exact(tail, id);
        assert forall|x: u64| rt.contains(x) implies subs.contains(x) by {
            assert(tail.contains(x));
            let j = choose|j: int| 0 <= j < tail.len() && tail[j] == x;
            assert(subs[j + 1] == x);
        }
        if subs[0] == id {
            assert(r == rt);
        } else {
            assert(r == seq![subs[0]] + rt);
            assert(r[0] == subs[0]);
            assert(forall|k: int| 1 <= k < r.len() ==> #[trigger] r[k] == rt[k - 1]);
            assert forall|x: u64| r.contains(x) implies subs.contains(x) by {
                let k = choose|k: int| 0 <= k < r.len() && r[k] == x;
                if k == 0 {
                    assert(subs[0] == x);
                    assert(subs.contains(x)) by {
                        assert(subs[0] == x);
                    }
                } else {
                    assert(rt[k - 1] == x);
                    assert(rt.contains(x));
                }
            }
            if subs.no_duplicates() {
                assert(tail.no_duplicates()) by {
                    assert(forall|i: int| 0 <= i < tail.len() ==> #[trigger] tail[i] == subs.index(
                        i + 1,
                    ));
                }
                assert(!rt.contains(subs[0])) by {
                    if rt.contains(subs[0]) {
                        assert(tail.contains(subs[0]));
                        let j = choose|j: int| 0 <= j < tail.len() && tail[j] == subs[0];
                        assert(subs[j + 1] == subs[0]);
                    }
                }
                assert forall|i: int, j: int|
                    0 <= i < r.len() && 0 <= j < r.len() && i != j implies r[i] != r[j] by {
                    if i == 0 && r[0] == r[j] {
                        assert(rt[j - 1] == subs[0]);
                        assert(rt.contains(subs[0]));
                    } else if j == 0 && r[0] == r[i] {
                        assert(rt[i - 1] == subs[0]);
                        assert(rt.contains(subs[0]));
                    }
                }
            }
        }
    }
}

/// The empty directive: no notice, no rebuild.
pub open spec fn spec_quiet() -> DirectiveV {
    DirectiveV { notify: Seq::empty(), start_rebuild: false }
}

/// The transition relation of the server loop. A relevant change starts a
/// rebuild at once, or marks one pending while a rebuild is in flight. A
/// finished rebuild notifies every current subscriber exactly when it
/// succeeded, and starts the pending rebuild if one accumulated.
/// Subscriptions and unsubscriptions edit the subscriber set.
pub open spec fn spec_serve_step(m: LoopV, ev: ServeEvent) -> (LoopV, DirectiveV) {
    match ev {
        ServeEvent::FileChanged { kind } => {
            if spec_triggers_rebuild(kind) {
                if m.rebuilding {
                    (LoopV { pending: true, ..m }, spec_quiet())
                } else {
                    (
                        LoopV { rebuilding: true, ..m },
                        DirectiveV { notify: Seq::empty(), start_rebuild: true },
                    )
                }
            } else {
                (m, spec_quiet())
            }
        },
        ServeEvent::RebuildFinished { ok } => {
            if m.rebuilding {
                let notify = if ok {
                    m.subscribers
                } else {
                    Seq::empty()
                };
                if m.pending {
                    (
                        LoopV { rebuilding: true, pending: false, ..m },
                        DirectiveV { notify, start_rebuild: true },
                    )
                } else {
                    (LoopV { rebuilding: false, ..m }, DirectiveV { notify, start_rebuild: false })
                }
            } else {
                (m, spec_quiet())
            }
        },
        ServeEvent::Subscribed { id } => {
            if m.subscribers.contains(id) {
                (m, spec_quiet())
            } else {
                (LoopV { subscribers: m.subscribers.push(id), ..m }, spec_quiet())
            }
        },
        ServeEvent::Unsubscribed { id } => {
            (LoopV { subscribers: spec_remove_id(m.subscribers, id), ..m }, spec_quiet())
        },
    }
}

impl DevServerLoop {
    /// A fresh loop: nothing in flight, nobody subscribed.
    pub fn new() -> (r: Self)
        ensures
            r@ == (LoopV { rebuilding: false, pending: false, subscribers: Seq::empty() }),
            r@.wf(),
    {
        let r = DevServerLoop { rebuilding: false, pending: false, subscribers: Vec::new() };
        proof {
            assert(r@.subscribers =~= Seq::<u64>::empty());
        }
        r
    }

    fn contains_id(&self, id: u64) -> (r: bool)
        ensures
            r == self@.subscribers.contains(id),
    {
        let mut i: usize = 0;
        while i < self.subscribers.len()
            invariant
                i <= self.subscribers@.len(),
                forall|k: int| 0 <= k < i ==> self.subscribers@[k] != id,
            decreases self.subscribers@.len() - i,
        {
            if self.subscribers[i] == id {
                return true;
            }
            i += 1;
        }
        false
    }

    /// Consumes one event and returns what to do, exactly as
    /// [`spec_serve_step`] relates them.
    pub fn handle(&mut self, ev: ServeEvent) -> (d: ServeDirective)
        ensures
            final(self)@ == spec_serve_step(old(self)@, ev).0,
            d@ == spec_serve_step(old(self)@, ev).1,
    {
        match ev {
            ServeEvent::FileChanged { kind } => {
                if triggers_rebuild(kind) {
                    if self.rebuilding {
                        self.pending = true;
                        ServeDirective { notify: Vec::new(), start_rebuild: false }
                    } else {
                        self.rebuilding = true;
                        ServeDirective { notify: Vec::new(), start_rebuild: true }
                    }
                } else {
                    ServeDirective { notify: Vec::new(), start_rebuild: false }
                }
            },
            ServeEvent::RebuildFinished { ok } => {
                if self.rebuilding {
                    let notify = if ok {
                        self.copy_subscribers()
                    } else {
                        Vec::new()
                    };
                    if self.pending {
                        self.pending = false;
                        ServeDirective { notify, start_rebuild: true }
                    } else {
                        self.rebuilding = false;
                        ServeDirective { notify, start_rebuild: false }
                    }
                } else {
                    ServeDirective { notify: Vec::new(), start_rebuild: false }
                }
            },
            ServeEvent::Subscribed { id } => {
                if !self.contains_id(id) {
                    self.subscribers.push(id);
                }
                ServeDirective { notify: Vec::new(), start_rebuild: false }
            },
            ServeEvent::Unsubscribed { id } => {
                self.remove_id(id);
                ServeDirective { notify: Vec::new(), start_rebuild: false }
            },
        }
    }

    fn copy_subscribers(&self) -> (r: Vec<u64>)
        ensures
            r@ == self@.subscribers,
    {
        let mut out: Vec<u64> = Vec::new();
        let mut i: usize = 0;
        proof {
            assert(out@ =~= self@.subscribers.take(0));
        }
        while i < self.subscribers.len()
            invariant
                i <= self.subscribers@.len(),
                out@ == self.subscribers@.take(i as int),
            decreases self.subscribers@.len() - i,
        {
            out.push(self.subscribers[i]);
            proof {
                assert(out@ =~= self.subscribers@.take(i as int + 1));
            }
            i += 1;
        }
        proof {
            assert(self.subscribers@.take(self.subscribers@.len() as int) =~= self.subscribers@);
        }
        out
    }

    fn remove_id(&mut self, id: u64)
        ensures
            final(self).rebuilding == old(self).rebuilding,
            final(self).pending == old(self).pending,
            final(self)@.subscribers == spec_remove_id(old(self)@.subscribers, id),
    {
        let ghost subs = self@.subscribers;
        let mut out: Vec<u64> = Vec::new();
        let mut i: usize = 0;
        proof {
            assert(subs.take(0) =~= Seq::<u64>::empty());
        }
        while i < self.subscribers.len()
            invariant
                i <= self.subscribers@.len(),
                subs == self.subscribers@,
                out@ == spec_remove_id(subs.take(i as int), id),
            decreases self.subscribers@.len() - i,
        {
            let x = self.subscribers[i];
            proof {
                assert(subs.take(i as int + 1) =~= subs.take(i as int).push(subs[i as int]));
                lemma_remove_id_push(subs.take(i as int), id, subs[i as int]);
            }
            if x != id {
                out.push(x);
                proof {
                    assert(out@ =~= spec_remove_id(subs.take(i as int), id) + seq![x]);
                }
            }
            i += 1;
        }
        proof {
            assert(subs.take(subs.len() as int) =~= subs);
        }
        self.subscribers = out;
    }
}

/// Reload fan-out: exactly the successful finish of a rebuild notifies, and
/// it notifies exactly the currently subscribed streams — each of them
/// once, since ids are unique. No other event notifies anyone, so each
/// subscriber sees one notice per successful rebuild, before the next
/// rebuild can finish.
pub proof fn lemma_reload_fanout(m: LoopV, ev: ServeEvent)
    requires
        m.wf(),
    ensures
        spec_serve_step(m, ev).1.notify == if (ev matches ServeEvent::RebuildFinished { ok: true }
            && m.rebuilding) {
            m.subscribers
        } else {
            Seq::<u64>::empty()
        },
        spec_serve_step(m, ev).1.notify.no_duplicates(),
        spec_serve_step(m, ev).0.wf(),
{
    match ev {
        ServeEvent::Unsubscribed { id } => {
            lemma_remove_id_exact(m.subscribers, id);
        },
        _ => {},
    }
}

/// Rebuilds are strictly serialized: whenever a rebuild is started, the
/// loop records one in flight, and it starts one only from the idle state
/// or at the moment the previous rebuild finishes.
pub proof fn lemma_rebuild_serialized(m: LoopV, ev: ServeEvent)
    ensures
        spec_serve_step(m, ev).1.start_rebuild ==> spec_serve_step(m, ev).0.rebuilding,
        spec_serve_step(m, ev).1.start_rebuild ==> (!m.rebuilding || ev matches
            ServeEvent::RebuildFinished { .. }),
{
}

} // verus!
