//! The analyzer session: one external process, one serialized command
//! exchange at a time.
//!
//! The session owns the document table, the diagnostics cache, the
//! request correlator and the log of frames queued for the process. A
//! caller submits a command; the session validates it, queues its frames
//! and waits to be fed the decoded messages the process sends back. I/O
//! itself happens outside: the caller writes the queued frames to the
//! process and feeds every decoded incoming payload to `feed`.

use vstd::prelude::*;

use crate::args::{ArgValue, Args};
use crate::correlator::{Correlator, PendingRequest};
use crate::errors::{ErrorKind, SessionError};
use crate::message;
use crate::message::{obj_of, Message, ResponseOutcome};
use crate::registry::{args_match, spec_find, ExtractKind, Registry};
use crate::state::{
    bump, content_hash, diags_for, doc_find, hash_of, lemma_diags_for_at, lemma_diags_for_none,
    lemma_diags_other_update, lemma_diags_push_other, lemma_doc_find_first, lemma_doc_find_none,
    lemma_doc_find_other_update, lemma_doc_find_push_other, open_decision, DiagRecord,
    DocumentHandle, InitStatus, OpenAction,
};
use crate::types::{Diagnostic, Document, Edit, Location};
use crate::wire;

verus! {

/// One step of a command's protocol plan, in wire order.
pub enum PlanItem {
    /// The one-time initialization request.
    Handshake,
    /// A "document opened" notification carrying the document's text.
    OpenDoc { path: String, version: u64, text: String },
    /// A "document changed" notification carrying the new text.
    ChangeDoc { path: String, version: u64, text: String },
    /// One request of the command itself.
    Request { method: String },
}

/// Whether a plan item awaits a response.
pub open spec fn is_request(item: PlanItem) -> bool {
    match item {
        PlanItem::Handshake => true,
        PlanItem::Request { .. } => true,
        _ => false,
    }
}

/// The parameter object of a "document opened" notification.
pub open spec fn open_params_of(path: Seq<char>, version: u64, text: Seq<char>) -> Seq<char> {
    wire::obj_with_text(
        wire::obj_with_nat(wire::obj_with_text("{}"@, "path"@, path), "version"@, version),
        "text"@,
        text,
    )
}

/// The parameter object of a "document changed" notification.
pub open spec fn change_params_of(path: Seq<char>, version: u64, text: Seq<char>) -> Seq<char> {
    wire::obj_with_text(
        wire::obj_with_nat(wire::obj_with_text("{}"@, "path"@, path), "version"@, version),
        "text"@,
        text,
    )
}

/// The frame a notification plan item puts on the wire.
pub open spec fn plan_note_frame(item: PlanItem) -> Seq<u8> {
    match item {
        PlanItem::OpenDoc { path, version, text } => message::note_frame_of(
            "textDocument/didOpen"@,
            open_params_of(path@, version, text@),
        ),
        PlanItem::ChangeDoc { path, version, text } => message::note_frame_of(
            "textDocument/didChange"@,
            change_params_of(path@, version, text@),
        ),
        _ => Seq::empty(),
    }
}

/// The frame a request plan item puts on the wire, under identifier `id`
/// with the command's argument map as parameters.
pub open spec fn plan_request_frame(id: u64, item: PlanItem, args: Args) -> Seq<u8> {
    match item {
        PlanItem::Handshake => message::request_frame_of(
            id,
            "initialize"@,
            obj_of(Seq::<(String, ArgValue)>::empty()),
        ),
        PlanItem::Request { method } => message::request_frame_of(
            id,
            method@,
            obj_of(args.pairs@),
        ),
        _ => Seq::empty(),
    }
}

/// The methods of a plan's command requests, in wire order; the
/// handshake and the document notifications contribute nothing.
pub open spec fn plan_methods(plan: Seq<PlanItem>) -> Seq<Seq<char>>
    decreases plan.len(),
{
    if plan.len() == 0 {
        Seq::empty()
    } else {
        let rest = plan_methods(plan.drop_last());
        match plan.last() {
            PlanItem::Request { method } => rest.push(method@),
            _ => rest,
        }
    }
}

/// A plan without command requests carries no methods.
pub proof fn lemma_plan_methods_no_requests(plan: Seq<PlanItem>)
    requires
        forall|m: int| 0 <= m < plan.len() ==> !((#[trigger] plan[m]) is Request),
    ensures
        plan_methods(plan) == Seq::<Seq<char>>::empty(),
    decreases plan.len(),
{
    if plan.len() > 0 {
        assert(!(plan[plan.len() - 1] is Request));
        assert forall|m: int|
            0 <= m < plan.drop_last().len() implies !((#[trigger] plan.drop_last()[m])
            is Request) by {
            assert(plan.drop_last()[m] == plan[m]);
        }
        lemma_plan_methods_no_requests(plan.drop_last());
    }
}

/// The first command request of a plan carries the plan's first method.
pub proof fn lemma_plan_first_request(plan: Seq<PlanItem>, i: int)
    requires
        0 <= i < plan.len(),
        forall|m: int| 0 <= m < i ==> !((#[trigger] plan[m]) is Request),
        plan[i] is Request,
    ensures
        plan_methods(plan).len() >= 1,
        match plan[i] {
            PlanItem::Request { method } => plan_methods(plan)[0] == method@,
            _ => true,
        },
    decreases plan.len(),
{
    if i == plan.len() - 1 {
        assert forall|m: int|
            0 <= m < plan.drop_last().len() implies !((#[trigger] plan.drop_last()[m])
            is Request) by {
            assert(plan.drop_last()[m] == plan[m]);
        }
        lemma_plan_methods_no_requests(plan.drop_last());
        assert(plan.last() == plan[i]);
    } else {
        assert forall|m: int|
            0 <= m < i implies !((#[trigger] plan.drop_last()[m]) is Request) by {
            assert(plan.drop_last()[m] == plan[m]);
        }
        assert(plan.drop_last()[i] == plan[i]);
        lemma_plan_first_request(plan.drop_last(), i);
    }
}

/// Encodes a "document opened" notification frame.
fn encode_open_note(path: &String, version: u64, text: &String) -> (r: Vec<u8>)
    ensures
        r@ == message::note_frame_of("textDocument/didOpen"@, open_params_of(path@, version, text@)),
{
    let mut a = Args::new();
    a.push("path".to_owned(), ArgValue::Text(path.clone()));
    a.push("version".to_owned(), ArgValue::Nat(version));
    a.push("text".to_owned(), ArgValue::Text(text.clone()));
    proof {
        let p = a.pairs@;
        assert(p.len() == 3);
        assert(p.drop_last() =~= p.take(2));
        assert(p.take(2).drop_last() =~= p.take(1));
        assert(p.take(1).drop_last() =~= p.take(0));
        assert(p.take(0) =~= Seq::<(String, ArgValue)>::empty());
        assert(obj_of(p.take(0)) == "{}"@);
        assert(obj_of(p.take(1)) == wire::obj_with_text("{}"@, "path"@, path@));
        assert(obj_of(p.take(2)) == wire::obj_with_nat(obj_of(p.take(1)), "version"@, version));
        assert(obj_of(p) == wire::obj_with_text(obj_of(p.take(2)), "text"@, text@));
        assert(obj_of(p) == open_params_of(path@, version, text@));
    }
    message::encode_note("textDocument/didOpen", &a)
}

/// Encodes a "document changed" notification frame.
fn encode_change_note(path: &String, version: u64, text: &String) -> (r: Vec<u8>)
    ensures
        r@ == message::note_frame_of(
            "textDocument/didChange"@,
            change_params_of(path@, version, text@),
        ),
{
    let mut a = Args::new();
    a.push("path".to_owned(), ArgValue::Text(path.clone()));
    a.push("version".to_owned(), ArgValue::Nat(version));
    a.push("text".to_owned(), ArgValue::Text(text.clone()));
    proof {
        let p = a.pairs@;
        assert(p.len() == 3);
        assert(p.drop_last() =~= p.take(2));
        assert(p.take(2).drop_last() =~= p.take(1));
        assert(p.take(1).drop_last() =~= p.take(0));
        assert(p.take(0) =~= Seq::<(String, ArgValue)>::empty());
        assert(obj_of(p.take(0)) == "{}"@);
        assert(obj_of(p.take(1)) == wire::obj_with_text("{}"@, "path"@, path@));
        assert(obj_of(p.take(2)) == wire::obj_with_nat(obj_of(p.take(1)), "version"@, version));
        assert(obj_of(p) == wire::obj_with_text(obj_of(p.take(2)), "text"@, text@));
        assert(obj_of(p) == change_params_of(path@, version, text@));
    }
    message::encode_note("textDocument/didChange", &a)
}

/// One command's in-flight exchange: its plan, where it stands, and the
/// identifier it is waiting on.
pub struct Exchange {
    pub command: String,
    pub args: Args,
    pub plan: Vec<PlanItem>,
    pub next: usize,
    pub pending_id: u64,
    pub wire_start: usize,
    pub extract: ExtractKind,
    pub timeout_ms: u64,
}

/// One frame queued for the process, tagged with the command on whose
/// behalf it was queued.
pub struct OutFrame {
    pub command: String,
    pub bytes: Vec<u8>,
}

/// A command's normalized result.
#[derive(Debug)]
pub enum CmdOutcome {
    /// A plain descriptive string.
    Text(String),
    /// A structured edit list.
    Edits(Vec<Edit>),
    /// A location list.
    Locations(Vec<Location>),
    /// A diagnostic list.
    Diags(Vec<Diagnostic>),
}

/// What submitting a command led to.
#[derive(Debug)]
pub enum Submitted {
    /// Requests are on the wire; feed the process's messages to go on.
    InFlight,
    /// The command was answered from session state; nothing was sent.
    Finished(CmdOutcome),
}

/// What feeding one incoming message led to.
#[derive(Debug)]
pub enum FeedOutcome {
    /// The message matched nothing and was discarded; nothing changed.
    Ignored,
    /// A diagnostics notification replaced one document's cached entry.
    DiagnosticsUpdated,
    /// The in-flight exchange moved to its next request.
    Advanced,
    /// The in-flight exchange finished with this result.
    Finished(Result<CmdOutcome, SessionError>),
}

/// One analyzer session.
pub struct Session {
    pub init: InitStatus,
    pub docs: Vec<DocumentHandle>,
    pub diags: Vec<DiagRecord>,
    pub correlator: Correlator,
    pub registry: Registry,
    pub wire: Vec<OutFrame>,
    pub flushed: usize,
    pub exchange: Option<Exchange>,
}

impl Session {
    /// The session's structural invariant. While an exchange is in
    /// flight, exactly its one request is pending, its cursor rests on a
    /// request item, and every frame queued since it began carries its
    /// command: two commands' requests can never interleave.
    pub open spec fn wf(self) -> bool {
        &&& self.correlator.wf()
        &&& self.flushed <= self.wire@.len()
        &&& match self.exchange {
            Some(ex) => {
                &&& self.correlator.pending@.len() == 1
                &&& self.correlator.pending@[0].id == ex.pending_id
                &&& ex.next < ex.plan@.len()
                &&& is_request(ex.plan@[ex.next as int])
                &&& ex.plan@.last() is Request
                &&& ex.wire_start <= self.wire@.len()
                &&& forall|j: int|
                    ex.wire_start <= j < self.wire@.len() ==> (#[trigger] self.wire@[j]).command@
                        == ex.command@
                &&& self.init != InitStatus::NotStarted
                &&& self.init != InitStatus::Failed
                &&& ex.extract != ExtractKind::CachedDiagnostics
            },
            None => self.correlator.pending@.len() == 0,
        }
    }

    /// Whether `a` and `b` agree on everything a caller can observe.
    pub open spec fn same_state(a: Session, b: Session) -> bool {
        &&& a.init == b.init
        &&& a.docs@ == b.docs@
        &&& a.diags@ == b.diags@
        &&& a.correlator.pending@ == b.correlator.pending@
        &&& a.correlator.next_id == b.correlator.next_id
        &&& a.registry.commands@ == b.registry.commands@
        &&& a.wire@ == b.wire@
        &&& a.flushed == b.flushed
        &&& (a.exchange is None <==> b.exchange is None)
    }

    /// Whether `a` and `b` carry the same exchange, field for field.
    pub open spec fn same_exchange(a: Session, b: Session) -> bool {
        match (a.exchange, b.exchange) {
            (Some(x), Some(y)) => {
                &&& x.command@ == y.command@
                &&& x.args.pairs@ == y.args.pairs@
                &&& x.plan@ == y.plan@
                &&& x.next == y.next
                &&& x.pending_id == y.pending_id
                &&& x.wire_start == y.wire_start
                &&& x.extract == y.extract
                &&& x.timeout_ms == y.timeout_ms
            },
            (None, None) => true,
            _ => false,
        }
    }

    /// A fresh session over the given registry: nothing initialized,
    /// nothing open, nothing cached, nothing pending.
    pub fn new(registry: Registry) -> (r: Session)
        ensures
            r.wf(),
            r.init == InitStatus::NotStarted,
            r.docs@.len() == 0,
            r.diags@.len() == 0,
            r.correlator.pending@.len() == 0,
            r.correlator.next_id == 1,
            r.registry.commands@ == registry.commands@,
            r.wire@.len() == 0,
            r.flushed == 0,
            r.exchange is None,
    {
        Session {
            init: InitStatus::NotStarted,
            docs: Vec::new(),
            diags: Vec::new(),
            correlator: Correlator::new(),
            registry,
            wire: Vec::new(),
            flushed: 0,
            exchange: None,
        }
    }

    /// Brings the document table up to date for `path` with `content`,
    /// and says which notification (if any) the caller's plan must carry:
    /// a document already open with the same content needs none, one open
    /// with other content needs exactly one change notification.
    pub fn ensure_open(&mut self, path: &str, content: &str) -> (r: (OpenAction, u64))
        ensures
            final(self).init == old(self).init,
            final(self).diags@ == old(self).diags@,
            final(self).correlator.pending@ == old(self).correlator.pending@,
            final(self).correlator.next_id == old(self).correlator.next_id,
            final(self).registry.commands@ == old(self).registry.commands@,
            final(self).wire@ == old(self).wire@,
            final(self).flushed == old(self).flushed,
            (final(self).exchange is None <==> old(self).exchange is None),
            r.0 == open_decision(old(self).docs@, path@, hash_of(content@)),
            ({
                let h = hash_of(content@);
                match r.0 {
                    OpenAction::AlreadyCurrent => final(self).docs@ == old(self).docs@,
                    _ => {
                        &&& (doc_find(final(self).docs@, path@) matches Some(d) && d.open
                            && d.content_hash == h && d.version == r.1 && d.path@ == path@)
                        &&& r.1 == match doc_find(old(self).docs@, path@) {
                            None => 1u64,
                            Some(d0) => bump(d0.version),
                        }
                        &&& forall|q: Seq<char>|
                            q != path@ ==> doc_find(final(self).docs@, q) == doc_find(
                                old(self).docs@,
                                q,
                            )
                    },
                }
            }),
    {
        let h = content_hash(content);
        let path_s: String = path.to_owned();
        let n: usize = self.docs.len();
        let mut j: usize = 0;
        while j < n
            invariant
                n == self.docs@.len(),
                j <= n,
                path_s@ == path@,
                h == hash_of(content@),
                *self == *old(self),
                forall|m: int| 0 <= m < j ==> #[trigger] self.docs@[m].path@ != path@,
            decreases n - j,
        {
            if <String as PartialEq>::eq(&self.docs[j].path, &path_s) {
                proof {
                    lemma_doc_find_first(self.docs@, path@, j as int);
                }
                let was_open = self.docs[j].open;
                let old_hash = self.docs[j].content_hash;
                let old_version = self.docs[j].version;
                if was_open && old_hash == h {
                    return (OpenAction::AlreadyCurrent, old_version);
                }
                let version: u64 = if old_version < u64::MAX {
                    old_version + 1
                } else {
                    old_version
                };
                let newh = DocumentHandle { path: path_s, version, content_hash: h, open: true };
                let ghost before = self.docs@;
                self.docs.remove(j);
                self.docs.insert(j, newh);
                proof {
                    assert(self.docs@ =~= before.update(j as int, newh));
                    assert forall|m: int| 0 <= m < j implies #[trigger] self.docs@[m].path@
                        != path@ by {
                        assert(self.docs@[m] == before[m]);
                    }
                    lemma_doc_find_first(self.docs@, path@, j as int);
                    assert forall|q: Seq<char>| q != path@ implies doc_find(self.docs@, q)
                        == doc_find(before, q) by {
                        lemma_doc_find_other_update(before, self.docs@, j as int, q);
                    }
                }
                if was_open {
                    return (OpenAction::SentChange, version);
                }
                return (OpenAction::SentOpen, version);
            }
            j = j + 1;
        }
        proof {
            lemma_doc_find_none(self.docs@, path@);
        }
        let newh = DocumentHandle { path: path_s, version: 1, content_hash: h, open: true };
        self.docs.push(newh);
        proof {
            assert forall|m: int|
                0 <= m < self.docs@.len() - 1 implies #[trigger] self.docs@[m].path@ != path@ by {
                assert(self.docs@[m] == old(self).docs@[m]);
            }
            lemma_doc_find_first(self.docs@, path@, self.docs@.len() - 1);
            assert forall|q: Seq<char>| q != path@ implies doc_find(self.docs@, q) == doc_find(
                old(self).docs@,
                q,
            ) by {
                lemma_doc_find_push_other(old(self).docs@, newh, q);
            }
        }
        (OpenAction::SentOpen, 1)
    }

    /// Replaces one document's cached diagnostics wholesale with the
    /// latest published list.
    pub fn store_diags(&mut self, path: String, items: Vec<Diagnostic>)
        ensures
            final(self).init == old(self).init,
            final(self).docs@ == old(self).docs@,
            final(self).correlator.pending@ == old(self).correlator.pending@,
            final(self).correlator.next_id == old(self).correlator.next_id,
            final(self).registry.commands@ == old(self).registry.commands@,
            final(self).wire@ == old(self).wire@,
            final(self).flushed == old(self).flushed,
            final(self).exchange == old(self).exchange,
            diags_for(final(self).diags@, path@) == items@,
            forall|q: Seq<char>|
                q != path@ ==> diags_for(final(self).diags@, q) == diags_for(old(self).diags@, q),
    {
        let path_view = path.clone();
        let n: usize = self.diags.len();
        let mut j: usize = 0;
        while j < n
            invariant
                n == self.diags@.len(),
                j <= n,
                path_view@ == path@,
                *self == *old(self),
                forall|m: int| 0 <= m < j ==> #[trigger] self.diags@[m].path@ != path@,
            decreases n - j,
        {
            if <String as PartialEq>::eq(&self.diags[j].path, &path_view) {
                let rec = DiagRecord { path, items };
                let ghost before = self.diags@;
                self.diags.remove(j);
                self.diags.insert(j, rec);
                proof {
                    assert(self.diags@ =~= before.update(j as int, rec));
                    assert forall|m: int| 0 <= m < j implies #[trigger] self.diags@[m].path@
                        != path@ by {
                        assert(self.diags@[m] == before[m]);
                    }
                    lemma_diags_for_at(self.diags@, path@, j as int);
                    assert forall|q: Seq<char>| q != path@ implies diags_for(self.diags@, q)
                        == diags_for(before, q) by {
                        lemma_diags_other_update(before, self.diags@, j as int, q);
                    }
                }
                return ;
            }
            j = j + 1;
        }
        let rec = DiagRecord { path, items };
        self.diags.push(rec);
        proof {
            assert forall|m: int|
                0 <= m < self.diags@.len() - 1 implies #[trigger] self.diags@[m].path@ != path@ by {
                assert(self.diags@[m] == old(self).diags@[m]);
            }
            lemma_diags_for_at(self.diags@, path@, self.diags@.len() - 1);
            assert forall|q: Seq<char>| q != path@ implies diags_for(self.diags@, q) == diags_for(
                old(self).diags@,
                q,
            ) by {
                lemma_diags_push_other(old(self).diags@, rec, q);
            }
        }
    }

    /// The latest cached diagnostics for `path`, or an empty list when
    /// none have arrived yet — never an error.
    pub fn diagnostics_for(&self, path: &str) -> (r: Vec<Diagnostic>)
        ensures
            r@ == diags_for(self.diags@, path@),
    {
        let path_s: String = path.to_owned();
        let n: usize = self.diags.len();
        let mut j: usize = 0;
        while j < n
            invariant
                n == self.diags@.len(),
                j <= n,
                path_s@ == path@,
                forall|m: int| 0 <= m < j ==> #[trigger] self.diags@[m].path@ != path@,
            decreases n - j,
        {
            if <String as PartialEq>::eq(&self.diags[j].path, &path_s) {
                proof {
                    lemma_diags_for_at(self.diags@, path@, j as int);
                }
                return copy_diags(&self.diags[j].items);
            }
            j = j + 1;
        }
        proof {
            lemma_diags_for_none(self.diags@, path@);
        }
        Vec::new()
    }


    /// Builds one command's plan and brings the document table up to
    /// date: the handshake first when the session has never initialized,
    /// then exactly the notifications the open decisions demand for the
    /// resolved documents, then one request per protocol method in
    /// order.
    fn build_plan(&mut self, opens: &Vec<Document>, methods: Vec<String>, starting: bool) -> (plan:
        Vec<PlanItem>)
        requires
            methods@.len() > 0,
            forall|m1: int, m2: int|
                #![trigger opens@[m1].path@, opens@[m2].path@]
                0 <= m1 < opens@.len() && 0 <= m2 < opens@.len() && opens@[m1].path@
                    == opens@[m2].path@ ==> opens@[m1].content@ == opens@[m2].content@,
        ensures
            final(self).init == old(self).init,
            final(self).diags@ == old(self).diags@,
            final(self).correlator.pending@ == old(self).correlator.pending@,
            final(self).correlator.next_id == old(self).correlator.next_id,
            final(self).registry.commands@ == old(self).registry.commands@,
            final(self).wire@ == old(self).wire@,
            final(self).flushed == old(self).flushed,
            (final(self).exchange is None <==> old(self).exchange is None),
            plan@.len() > 0 && plan@.last() is Request,
            forall|m: int|
                0 <= m < plan@.len() ==> (((#[trigger] plan@[m]) is Handshake) <==> (m == 0
                    && starting)),
            plan_methods(plan@).len() == methods@.len(),
            forall|j: int|
                0 <= j < methods@.len() ==> plan_methods(plan@)[j] == (#[trigger] methods@[j])@,
            forall|m: int|
                0 <= m < opens@.len() ==> (doc_find(
                    final(self).docs@,
                    (#[trigger] opens@[m]).path@,
                ) matches Some(h) && h.open && h.content_hash == hash_of(opens@[m].content@)),
            forall|q: Seq<char>|
                (forall|m: int| 0 <= m < opens@.len() ==> (#[trigger] opens@[m]).path@ != q)
                    ==> doc_find(final(self).docs@, q) == doc_find(old(self).docs@, q),
            forall|m: int|
                #![trigger plan@[m]]
                0 <= m < plan@.len() ==> match plan@[m] {
                    PlanItem::OpenDoc { path, version, text } => open_decision(
                        old(self).docs@,
                        path@,
                        hash_of(text@),
                    ) == OpenAction::SentOpen,
                    PlanItem::ChangeDoc { path, version, text } => open_decision(
                        old(self).docs@,
                        path@,
                        hash_of(text@),
                    ) == OpenAction::SentChange,
                    _ => true,
                },
    {
        let mut methods = methods;
        let mut plan: Vec<PlanItem> = Vec::new();
        if starting {
            plan.push(PlanItem::Handshake);
        }
        let ghost pre = *self;
        let on: usize = opens.len();
        let mut oi: usize = 0;
        while oi < on
            invariant
                on == opens@.len(),
                oi <= on,
                self.init == pre.init,
                self.diags@ == pre.diags@,
                self.correlator.pending@ == pre.correlator.pending@,
                self.correlator.next_id == pre.correlator.next_id,
                self.registry.commands@ == pre.registry.commands@,
                self.wire@ == pre.wire@,
                self.flushed == pre.flushed,
                (self.exchange is None <==> pre.exchange is None),
                starting ==> plan@.len() > 0,
                forall|m: int|
                    0 <= m < plan@.len() ==> (((#[trigger] plan@[m]) is Handshake) <==> (m == 0
                        && starting)),
                forall|m: int| 0 <= m < plan@.len() ==> !(#[trigger] plan@[m] is Request),
                pre == *old(self),
                forall|m1: int, m2: int|
                    #![trigger opens@[m1].path@, opens@[m2].path@]
                    0 <= m1 < on && 0 <= m2 < on && opens@[m1].path@ == opens@[m2].path@
                        ==> opens@[m1].content@ == opens@[m2].content@,
                forall|m: int|
                    0 <= m < oi ==> (doc_find(self.docs@, (#[trigger] opens@[m]).path@) matches Some(
                        h,
                    ) && h.open && h.content_hash == hash_of(opens@[m].content@)),
                forall|q: Seq<char>|
                    (forall|m: int| 0 <= m < oi ==> (#[trigger] opens@[m]).path@ != q)
                        ==> doc_find(self.docs@, q) == doc_find(pre.docs@, q),
                forall|m: int|
                    #![trigger plan@[m]]
                    0 <= m < plan@.len() ==> match plan@[m] {
                        PlanItem::OpenDoc { path, version, text } => open_decision(
                            pre.docs@,
                            path@,
                            hash_of(text@),
                        ) == OpenAction::SentOpen,
                        PlanItem::ChangeDoc { path, version, text } => open_decision(
                            pre.docs@,
                            path@,
                            hash_of(text@),
                        ) == OpenAction::SentChange,
                        _ => true,
                    },
            decreases on - oi,
        {
            let path_s = opens[oi].path.clone();
            let text_s = opens[oi].content.clone();
            let ghost docs_before = self.docs@;
            let (act, ver) = self.ensure_open(path_s.as_str(), text_s.as_str());
            proof {
                // If a note is queued, the decision against the table at
                // entry says the same: an earlier duplicate of this path
                // would already be open under the same content hash.
                if act != OpenAction::AlreadyCurrent {
                    assert forall|m: int|
                        0 <= m < oi implies (#[trigger] opens@[m]).path@ != path_s@ by {
                        if opens@[m].path@ == path_s@ {
                            assert(opens@[m].content@ == opens@[oi as int].content@);
                            assert(doc_find(docs_before, path_s@) matches Some(h2) && h2.open
                                && h2.content_hash == hash_of(text_s@));
                            assert(open_decision(docs_before, path_s@, hash_of(text_s@))
                                == OpenAction::AlreadyCurrent);
                        }
                    }
                    assert(doc_find(docs_before, path_s@) == doc_find(pre.docs@, path_s@));
                    assert(open_decision(pre.docs@, path_s@, hash_of(text_s@)) == act);
                }
                assert forall|m: int|
                    0 <= m < oi + 1 implies (doc_find(
                    self.docs@,
                    (#[trigger] opens@[m]).path@,
                ) matches Some(h) && h.open && h.content_hash == hash_of(opens@[m].content@)) by {
                    if opens@[m].path@ == path_s@ {
                        assert(opens@[m].content@ == opens@[oi as int].content@);
                        assert(doc_find(self.docs@, path_s@) matches Some(h2) && h2.open
                            && h2.content_hash == hash_of(text_s@));
                    } else {
                        assert(m < oi);
                        if act != OpenAction::AlreadyCurrent {
                            assert(doc_find(self.docs@, opens@[m].path@) == doc_find(
                                docs_before,
                                opens@[m].path@,
                            ));
                        }
                    }
                }
                assert forall|q: Seq<char>|
                    (forall|m: int| 0 <= m < oi + 1 ==> (#[trigger] opens@[m]).path@ != q) implies
                    doc_find(self.docs@, q) == doc_find(pre.docs@, q) by {
                    if forall|m: int| 0 <= m < oi + 1 ==> (#[trigger] opens@[m]).path@ != q {
                        assert(opens@[oi as int].path@ != q);
                        assert(path_s@ != q);
                        if act != OpenAction::AlreadyCurrent {
                            assert(doc_find(self.docs@, q) == doc_find(docs_before, q));
                        }
                        assert(forall|m: int| 0 <= m < oi ==> (#[trigger] opens@[m]).path@ != q);
                    }
                }
            }
            if act == OpenAction::SentOpen {
                plan.push(PlanItem::OpenDoc { path: path_s, version: ver, text: text_s });
            } else if act == OpenAction::SentChange {
                plan.push(PlanItem::ChangeDoc { path: path_s, version: ver, text: text_s });
            }
            oi = oi + 1;
        }
        let ghost ms0 = methods@;
        proof {
            lemma_plan_methods_no_requests(plan@);
        }
        while methods.len() > 0
            invariant
                methods@.len() > 0 || (plan@.len() > 0 && plan@.last() is Request),
                starting ==> plan@.len() > 0,
                forall|m: int|
                    0 <= m < plan@.len() ==> (((#[trigger] plan@[m]) is Handshake) <==> (m == 0
                        && starting)),
                ms0.len() == plan_methods(plan@).len() + methods@.len(),
                forall|m: int|
                    #![trigger plan@[m]]
                    0 <= m < plan@.len() ==> match plan@[m] {
                        PlanItem::OpenDoc { path, version, text } => open_decision(
                            old(self).docs@,
                            path@,
                            hash_of(text@),
                        ) == OpenAction::SentOpen,
                        PlanItem::ChangeDoc { path, version, text } => open_decision(
                            old(self).docs@,
                            path@,
                            hash_of(text@),
                        ) == OpenAction::SentChange,
                        _ => true,
                    },
                forall|j: int|
                    0 <= j < plan_methods(plan@).len() ==> plan_methods(plan@)[j] == (
                    #[trigger] ms0[j])@,
                forall|j: int|
                    0 <= j < methods@.len() ==> (#[trigger] methods@[j]) == ms0[plan_methods(
                        plan@,
                    ).len() + j],
            decreases methods@.len(),
        {
            let ghost pm = plan_methods(plan@);
            let method = methods.remove(0);
            let ghost mview = method@;
            let ghost plan0 = plan@;
            plan.push(PlanItem::Request { method });
            proof {
                assert(plan@.drop_last() =~= plan0);
                assert(plan@.last() matches PlanItem::Request { method: mm } && mm@ == mview);
                assert(plan_methods(plan@) =~= pm.push(mview));
            }
        }
        proof {
            assert(plan@.len() > 0 && plan@.last() is Request);
            assert(plan_methods(plan@).len() == ms0.len());
        }
        plan
    }

    /// Submits one command against the exclusively owned session. An
    /// unregistered name or an argument map that misses the schema is
    /// rejected with nothing sent; a terminated session rejects
    /// everything until restart; the diagnostics command answers from
    /// the cache with nothing sent; any other valid command queues its
    /// opening notifications and first request and goes in flight.
    #[verifier::rlimit(100)]
    pub fn submit(&mut self, name: &str, args: Args, docs: &Vec<Document>) -> (r: Result<
        Submitted,
        ErrorKind,
    >)
        requires
            old(self).wf(),
            old(self).exchange is None,
            old(self).correlator.next_id < u64::MAX,
        ensures
            final(self).wf(),
            old(self).wire@.is_prefix_of(final(self).wire@),
            forall|j: int|
                old(self).wire@.len() <= j < final(self).wire@.len()
                    ==> (#[trigger] final(self).wire@[j]).command@ == name@,
            final(self).flushed == old(self).flushed,
            final(self).registry.commands@ == old(self).registry.commands@,
            final(self).diags@ == old(self).diags@,
            old(self).init == InitStatus::Failed ==> (r matches Err(k) && k
                == ErrorKind::SessionTerminated),
            match r {
                Err(k) => {
                    &&& Self::same_state(*final(self), *old(self))
                    &&& final(self).docs@ == old(self).docs@
                    &&& final(self).exchange is None
                    &&& (k == ErrorKind::SessionTerminated || k == ErrorKind::UnknownCommand || k
                        == ErrorKind::InvalidArguments)
                    &&& (k == ErrorKind::SessionTerminated <==> old(self).init
                        == InitStatus::Failed)
                    &&& (k == ErrorKind::UnknownCommand <==> old(self).init != InitStatus::Failed
                        && spec_find(old(self).registry.commands@, name@) is None)
                    &&& (k == ErrorKind::InvalidArguments <==> old(self).init
                        != InitStatus::Failed && (spec_find(
                        old(self).registry.commands@,
                        name@,
                    ) matches Some(d) && !submit_acceptable(d, args, docs@)))
                },
                Ok(Submitted::Finished(out)) => {
                    &&& Self::same_state(*final(self), *old(self))
                    &&& final(self).docs@ == old(self).docs@
                    &&& final(self).exchange is None
                    &&& (spec_find(old(self).registry.commands@, name@) matches Some(d) && {
                        &&& submit_acceptable(d, args, docs@)
                        &&& if d.extract == ExtractKind::CachedDiagnostics {
                            match args.spec_get("file_path"@) {
                                Some(v) => v matches ArgValue::Text(p) && out matches
                                    CmdOutcome::Diags(items) && items@ == diags_for(
                                    old(self).diags@,
                                    p@,
                                ),
                                None => false,
                            }
                        } else {
                            d.methods@.len() == 0 && (out matches CmdOutcome::Text(t) && t@
                                == Seq::<char>::empty())
                        }
                    })
                },
                Ok(Submitted::InFlight) => {
                    &&& (final(self).exchange matches Some(ex) && {
                        &&& ex.command@ == name@
                        &&& (spec_find(old(self).registry.commands@, name@) matches Some(d) && {
                            &&& submit_acceptable(d, args, docs@)
                            &&& d.extract != ExtractKind::CachedDiagnostics
                            &&& d.methods@.len() > 0
                            &&& ex.extract == d.extract
                            &&& ex.timeout_ms == d.timeout_ms
                            &&& forall|m: int|
                                0 <= m < d.doc_args@.len() ==> match args.spec_get(
                                    (#[trigger] d.doc_args@[m])@,
                                ) {
                                    Some(v) => v matches ArgValue::Text(p) && (doc_find(
                                        final(self).docs@,
                                        p@,
                                    ) matches Some(h) && h.open && (snapshot_find(
                                        docs@,
                                        p@,
                                    ) matches Some(sd) && h.content_hash == hash_of(sd.content@))),
                                    None => false,
                                }
                        })
                        &&& ex.args.pairs@ == args.pairs@
                        &&& ex.wire_start == old(self).wire@.len()
                        &&& final(self).wire@.len() == old(self).wire@.len() + ex.next + 1
                        &&& final(self).wire@.last().bytes@ == plan_request_frame(
                            ex.pending_id,
                            ex.plan@[ex.next as int],
                            ex.args,
                        )
                        &&& forall|m: int|
                            0 <= m < ex.next
                                ==> final(self).wire@[old(self).wire@.len() + m].bytes@
                                == plan_note_frame(#[trigger] ex.plan@[m])
                        &&& forall|m: int| 0 <= m < ex.next ==> !is_request(#[trigger] ex.plan@[m])
                        &&& (spec_find(old(self).registry.commands@, name@) matches Some(d) && {
                            &&& plan_methods(ex.plan@).len() == d.methods@.len()
                            &&& forall|j: int|
                                0 <= j < d.methods@.len() ==> plan_methods(ex.plan@)[j] == (
                                #[trigger] d.methods@[j])@
                            &&& (old(self).init != InitStatus::NotStarted ==> (
                            ex.plan@[ex.next as int] matches PlanItem::Request { method }
                                && method@ == d.methods@[0]@))
                        })
                        &&& forall|m: int|
                            0 <= m < ex.plan@.len() ==> (((#[trigger] ex.plan@[m]) is Handshake)
                                <==> (m == 0 && old(self).init == InitStatus::NotStarted))
                        &&& forall|m: int|
                            #![trigger ex.plan@[m]]
                            0 <= m < ex.plan@.len() ==> match ex.plan@[m] {
                                PlanItem::OpenDoc { path, version, text } => open_decision(
                                    old(self).docs@,
                                    path@,
                                    hash_of(text@),
                                ) == OpenAction::SentOpen,
                                PlanItem::ChangeDoc { path, version, text } => open_decision(
                                    old(self).docs@,
                                    path@,
                                    hash_of(text@),
                                ) == OpenAction::SentChange,
                                _ => true,
                            }
                        &&& ex.pending_id == old(self).correlator.next_id
                        &&& (old(self).init == InitStatus::NotStarted ==> final(self).init
                            == InitStatus::Initializing && ex.plan@[0] is Handshake && ex.next
                            == 0)
                        &&& (old(self).init != InitStatus::NotStarted ==> final(self).init == old(
                            self,
                        ).init)
                    })
                },
            },
    {
        if self.init == InitStatus::Failed {
            return Err(ErrorKind::SessionTerminated);
        }
        let mut methods: Vec<String>;
        let doc_args: Vec<String>;
        let timeout_ms: u64;
        let extract: ExtractKind;
        let fields_ok: bool;
        match self.registry.find(name) {
            None => {
                return Err(ErrorKind::UnknownCommand);
            },
            Some(d) => {
                fields_ok = crate::registry::validate_args(d, &args);
                methods = copy_strings(&d.methods);
                doc_args = copy_strings(&d.doc_args);
                timeout_ms = d.timeout_ms;
                extract = d.extract;
            },
        }
        if !fields_ok {
            return Err(ErrorKind::InvalidArguments);
        }
        // Resolve the content of every document the command touches
        // before mutating anything, so a rejection changes nothing.
        let mut opens: Vec<Document> = Vec::new();
        let dn: usize = doc_args.len();
        let mut k: usize = 0;
        while k < dn
            invariant
                dn == doc_args@.len(),
                k <= dn,
                *self == *old(self),
                self.wf(),
                self.exchange is None,
                self.init != InitStatus::Failed,
                args_ok_inv(self.registry, name@, args, doc_args@, methods@, extract, timeout_ms),
                opens@.len() == k,
                forall|m: int|
                    0 <= m < k ==> match args.spec_get((#[trigger] doc_args@[m])@) {
                        Some(v) => v matches ArgValue::Text(p) && (snapshot_find(
                            docs@,
                            p@,
                        ) matches Some(sd) && opens@[m].path@ == p@ && opens@[m].content@
                            == sd.content@),
                        None => false,
                    },
            decreases dn - k,
        {
            match args.get(doc_args[k].as_str()) {
                Some(ArgValue::Text(p)) => {
                    match snapshot_get(docs, p) {
                        Some(c) => {
                            opens.push(Document { path: p.clone(), content: c });
                        },
                        None => {
                            return Err(ErrorKind::InvalidArguments);
                        },
                    }
                },
                _ => {
                    return Err(ErrorKind::InvalidArguments);
                },
            }
            k = k + 1;
        }
        if extract == ExtractKind::CachedDiagnostics {
            match args.get("file_path") {
                Some(ArgValue::Text(p)) => {
                    let items = self.diagnostics_for(p.as_str());
                    return Ok(Submitted::Finished(CmdOutcome::Diags(items)));
                },
                _ => {
                    return Err(ErrorKind::InvalidArguments);
                },
            }
        }
        if methods.len() == 0 {
            return Ok(Submitted::Finished(CmdOutcome::Text(String::new())));
        }
        // From here on the command is accepted: build its plan.
        let starting = self.init == InitStatus::NotStarted;
        proof {
            assert forall|m1: int, m2: int|
                #![trigger opens@[m1].path@, opens@[m2].path@]
                0 <= m1 < opens@.len() && 0 <= m2 < opens@.len() && opens@[m1].path@
                    == opens@[m2].path@ implies opens@[m1].content@ == opens@[m2].content@ by {
                assert(match args.spec_get((doc_args@[m1])@) {
                    Some(v) => v matches ArgValue::Text(p) && (snapshot_find(
                        docs@,
                        p@,
                    ) matches Some(sd) && opens@[m1].path@ == p@ && opens@[m1].content@
                        == sd.content@),
                    None => false,
                });
                assert(match args.spec_get((doc_args@[m2])@) {
                    Some(v) => v matches ArgValue::Text(p) && (snapshot_find(
                        docs@,
                        p@,
                    ) matches Some(sd) && opens@[m2].path@ == p@ && opens@[m2].content@
                        == sd.content@),
                    None => false,
                });
            }
        }
        let plan = self.build_plan(&opens, methods, starting);
        let command_s: String = name.to_owned();
        let wire_start: usize = self.wire.len();
        let (next, id) = emit_steps(
            &command_s,
            &args,
            &plan,
            0,
            &mut self.correlator,
            &mut self.wire,
        );
        proof {
            if !starting {
                assert(plan@[next as int] is Request);
                lemma_plan_first_request(plan@, next as int);
            }
        }
        if starting {
            self.init = InitStatus::Initializing;
        }
        self.exchange = Some(
            Exchange {
                command: command_s,
                args,
                plan,
                next,
                pending_id: id,
                wire_start,
                extract,
                timeout_ms,
            },
        );
        Ok(Submitted::InFlight)
    }

    /// Feeds one decoded incoming message. A response matching the
    /// in-flight request advances or finishes its exchange; a response
    /// matching no pending request is discarded with nothing else
    /// touched; a diagnostics notification replaces one document's cache
    /// entry wholesale and no other's; everything else is discarded. In
    /// particular a request from the process itself is deliberately left
    /// unanswered: replying mid-exchange would put another party's frame
    /// on the serialized wire, and the analysis protocol tolerates an
    /// unanswered capability request.
    pub fn feed(&mut self, msg: Message) -> (r: FeedOutcome)
        requires
            old(self).wf(),
            old(self).correlator.next_id < u64::MAX,
        ensures
            final(self).wf(),
            old(self).wire@.is_prefix_of(final(self).wire@),
            final(self).flushed == old(self).flushed,
            final(self).docs@ == old(self).docs@,
            final(self).registry.commands@ == old(self).registry.commands@,
            forall|j: int|
                old(self).wire@.len() <= j < final(self).wire@.len() ==> (
                old(self).exchange matches Some(ex) && (#[trigger] final(self).wire@[j]).command@
                    == ex.command@),
            (old(self).exchange matches Some(ex0) && (msg matches Message::Response { id, .. }
                && id == ex0.pending_id)) ==> (r is Advanced || r matches FeedOutcome::Finished(
                _,
            )),
            (msg matches Message::Note { method, params } && method@
                == "textDocument/publishDiagnostics"@ && wire::wire_diag_path(params@) is Some && (
            wire::wire_diag_count(params@) matches Some(n) && forall|i: int|
                0 <= i < n ==> (#[trigger] wire::wire_diag_at(params@, i)) is Some))
                ==> r is DiagnosticsUpdated,
            match r {
                FeedOutcome::Ignored => Self::same_state(*final(self), *old(self))
                    && Self::same_exchange(*final(self), *old(self)),
                FeedOutcome::DiagnosticsUpdated => {
                    &&& (msg matches Message::Note { method, params } && {
                        &&& method@ == "textDocument/publishDiagnostics"@
                        &&& (wire::wire_diag_path(params@) matches Some(p) && {
                            &&& (wire::wire_diag_count(params@) matches Some(n) && {
                                let items = diags_for(final(self).diags@, p);
                                &&& items.len() == n
                                &&& forall|i: int|
                                    0 <= i < items.len() ==> wire::wire_diag_at(params@, i)
                                        == Some(
                                        (
                                            (#[trigger] items[i]).start_line,
                                            items[i].start_character,
                                            items[i].end_line,
                                            items[i].end_character,
                                            items[i].severity,
                                            items[i].message@,
                                            items[i].source@,
                                        ),
                                    )
                            })
                        })
                    })
                    &&& (msg matches Message::Note { method: m2, params: p2 }
                        && wire::wire_diag_path(p2@) matches Some(p3) ==> forall|q: Seq<char>|
                        q != p3 ==> diags_for(final(self).diags@, q) == diags_for(
                            old(self).diags@,
                            q,
                        ))
                    &&& final(self).init == old(self).init
                    &&& final(self).wire@ == old(self).wire@
                    &&& final(self).correlator.pending@ == old(self).correlator.pending@
                    &&& final(self).correlator.next_id == old(self).correlator.next_id
                    &&& Self::same_exchange(*final(self), *old(self))
                },
                FeedOutcome::Advanced => {
                    &&& (old(self).exchange matches Some(ex0) && final(self).exchange matches Some(
                        ex1,
                    ) && {
                        &&& (msg matches Message::Response { id, outcome } && id == ex0.pending_id
                            && outcome is Success)
                        &&& ex1.command@ == ex0.command@
                        &&& ex1.plan@ == ex0.plan@
                        &&& ex1.args.pairs@ == ex0.args.pairs@
                        &&& ex1.extract == ex0.extract
                        &&& ex1.wire_start == ex0.wire_start
                        &&& ex0.next < ex1.next
                        &&& ex1.pending_id == old(self).correlator.next_id
                        &&& final(self).wire@.len() == old(self).wire@.len() + (ex1.next
                            - ex0.next)
                        &&& final(self).wire@.last().bytes@ == plan_request_frame(
                            ex1.pending_id,
                            ex1.plan@[ex1.next as int],
                            ex1.args,
                        )
                        &&& forall|m: int|
                            ex0.next < m < ex1.next ==> !is_request(#[trigger] ex1.plan@[m])
                        &&& forall|m: int|
                            ex0.next < m < ex1.next
                                ==> final(self).wire@[old(self).wire@.len() + (m - ex0.next
                                - 1)].bytes@ == plan_note_frame(#[trigger] ex1.plan@[m])
                        &&& (ex0.plan@[ex0.next as int] is Handshake ==> final(self).init
                            == InitStatus::Ready)
                        &&& (!(ex0.plan@[ex0.next as int] is Handshake)
                            ==> final(self).init == old(self).init)
                    })
                    &&& final(self).diags@ == old(self).diags@
                },
                FeedOutcome::Finished(res) => {
                    &&& final(self).exchange is None
                    &&& final(self).correlator.pending@.len() == 0
                    &&& (old(self).exchange matches Some(ex0) && {
                        &&& (msg matches Message::Response { id, outcome } && id == ex0.pending_id
                            && match outcome {
                            ResponseOutcome::Failure { code, message } => {
                                &&& (res matches Err(e) && e.kind == ErrorKind::AnalyzerReported
                                    && e.message@ == message@)
                                &&& (ex0.plan@[ex0.next as int] is Handshake ==> final(self).init
                                    == InitStatus::Failed)
                                &&& (!(ex0.plan@[ex0.next as int] is Handshake)
                                    ==> final(self).init == old(self).init)
                            },
                            ResponseOutcome::Success { result } => {
                                &&& ex0.next == ex0.plan@.len() - 1
                                &&& match res {
                                    Ok(out) => extract_ok(ex0.extract, result@, out),
                                    Err(e) => e.kind == ErrorKind::MalformedMessage
                                        && extract_fails(ex0.extract, result@),
                                }
                            },
                        })
                    })
                    &&& final(self).diags@ == old(self).diags@
                    &&& final(self).wire@ == old(self).wire@
                },
            },
    {
        match msg {
            Message::Note { method, params } => {
                let pubdiag: String = "textDocument/publishDiagnostics".to_owned();
                if !<String as PartialEq>::eq(&method, &pubdiag) {
                    return FeedOutcome::Ignored;
                }
                let path = match wire::diag_path_of(params.as_str()) {
                    Some(p) => p,
                    None => {
                        return FeedOutcome::Ignored;
                    },
                };
                let count = match wire::diag_count_of(params.as_str()) {
                    Some(n) => n,
                    None => {
                        return FeedOutcome::Ignored;
                    },
                };
                let mut items: Vec<Diagnostic> = Vec::new();
                let mut i: usize = 0;
                while i < count
                    invariant
                        i <= count,
                        *self == *old(self),
                        self.wf(),
                        msg matches Message::Note { method: mm, params: pp } && mm@ == method@
                            && pp@ == params@,
                        wire::wire_diag_count(params@) == Some(count),
                        items@.len() == i,
                        forall|m: int|
                            0 <= m < i ==> wire::wire_diag_at(params@, m) == Some(
                                (
                                    (#[trigger] items@[m]).start_line,
                                    items@[m].start_character,
                                    items@[m].end_line,
                                    items@[m].end_character,
                                    items@[m].severity,
                                    items@[m].message@,
                                    items@[m].source@,
                                ),
                            ),
                    decreases count - i,
                {
                    match wire::diag_at_of(params.as_str(), i) {
                        Some(d) => {
                            items.push(d);
                        },
                        None => {
                            return FeedOutcome::Ignored;
                        },
                    }
                    i = i + 1;
                }
                self.store_diags(path, items);
                FeedOutcome::DiagnosticsUpdated
            },
            Message::Incoming { .. } => FeedOutcome::Ignored,
            Message::Response { id, outcome } => {
                let matched = match &self.exchange {
                    Some(ex) => ex.pending_id == id,
                    None => false,
                };
                if !matched {
                    return FeedOutcome::Ignored;
                }
                let mut ex = match self.exchange.take() {
                    Some(e) => e,
                    None => {
                        proof {
                            assert(false);
                        }
                        return FeedOutcome::Ignored;
                    },
                };
                proof {
                    assert(ex == old(self).exchange.unwrap());
                    assert(self.correlator.pending@[0].id == id);
                    assert(self.correlator.spec_contains(id));
                }
                let _ = self.correlator.resolve(id);
                let plen: usize = ex.plan.len();
                proof {
                    assert(ex.next < plen);
                }
                let on_handshake = match &ex.plan[ex.next] {
                    PlanItem::Handshake => true,
                    _ => false,
                };
                match outcome {
                    ResponseOutcome::Failure { code: _, message } => {
                        if on_handshake {
                            self.init = InitStatus::Failed;
                        }
                        FeedOutcome::Finished(
                            Err(SessionError { kind: ErrorKind::AnalyzerReported, message }),
                        )
                    },
                    ResponseOutcome::Success { result } => {
                        if on_handshake {
                            self.init = InitStatus::Ready;
                        }
                        if ex.next + 1 < plen {
                            let (nx, id2) = emit_steps(
                                &ex.command,
                                &ex.args,
                                &ex.plan,
                                ex.next + 1,
                                &mut self.correlator,
                                &mut self.wire,
                            );
                            ex.next = nx;
                            ex.pending_id = id2;
                            self.exchange = Some(ex);
                            proof {
                                let exv = self.exchange.unwrap();
                                let ex0 = old(self).exchange.unwrap();
                                assert forall|j: int|
                                    exv.wire_start <= j < self.wire@.len() implies (
                                #[trigger] self.wire@[j]).command@ == exv.command@ by {
                                    if j < old(self).wire@.len() {
                                        assert(old(self).wire@ =~= self.wire@.subrange(
                                            0,
                                            old(self).wire@.len() as int,
                                        ));
                                        assert(self.wire@[j] == old(self).wire@[j]);
                                        assert(old(self).wire@[j].command@ == ex0.command@);
                                    }
                                }
                            }
                            FeedOutcome::Advanced
                        } else {
                            FeedOutcome::Finished(extract_result(ex.extract, result))
                        }
                    },
                }
            },
        }
    }

    /// The external process exited: every outstanding request fails at
    /// once, the returned slots tell the caller which they were, and the
    /// session accepts nothing further until it is restarted.
    pub fn process_exited(&mut self) -> (r: Vec<PendingRequest>)
        requires
            old(self).wf(),
        ensures
            final(self).wf(),
            final(self).init == InitStatus::Failed,
            final(self).exchange is None,
            final(self).correlator.pending@.len() == 0,
            final(self).correlator.next_id == old(self).correlator.next_id,
            r@ == old(self).correlator.pending@,
            final(self).docs@ == old(self).docs@,
            final(self).diags@ == old(self).diags@,
            final(self).wire@ == old(self).wire@,
            final(self).flushed == old(self).flushed,
            final(self).registry.commands@ == old(self).registry.commands@,
    {
        self.init = InitStatus::Failed;
        self.exchange = None;
        self.correlator.drain_all()
    }

    /// Restarts a terminated session: a fresh handshake, an empty
    /// document table and cache, nothing pending.
    pub fn restart(&mut self)
        requires
            old(self).wf(),
        ensures
            final(self).wf(),
            final(self).init == InitStatus::NotStarted,
            final(self).exchange is None,
            final(self).correlator.pending@.len() == 0,
            final(self).docs@.len() == 0,
            final(self).diags@.len() == 0,
            final(self).registry.commands@ == old(self).registry.commands@,
            final(self).wire@ == old(self).wire@,
            final(self).flushed == old(self).flushed,
    {
        self.init = InitStatus::NotStarted;
        self.exchange = None;
        self.docs = Vec::new();
        self.diags = Vec::new();
        let _ = self.correlator.drain_all();
    }

    /// The in-flight request timed out: its exchange fails with
    /// `RequestTimeout` and nothing stays pending. With no exchange in
    /// flight there is nothing to time out.
    pub fn on_timeout(&mut self) -> (r: FeedOutcome)
        requires
            old(self).wf(),
        ensures
            final(self).wf(),
            final(self).docs@ == old(self).docs@,
            final(self).diags@ == old(self).diags@,
            final(self).wire@ == old(self).wire@,
            final(self).flushed == old(self).flushed,
            final(self).init == old(self).init,
            final(self).registry.commands@ == old(self).registry.commands@,
            match old(self).exchange {
                Some(_) => {
                    &&& (r matches FeedOutcome::Finished(res) && res matches Err(e) && e.kind
                        == ErrorKind::RequestTimeout)
                    &&& final(self).exchange is None
                    &&& final(self).correlator.pending@.len() == 0
                },
                None => r is Ignored && Self::same_state(*final(self), *old(self)),
            },
    {
        match self.exchange.take() {
            None => FeedOutcome::Ignored,
            Some(ex) => {
                let _ = self.correlator.resolve(ex.pending_id);
                FeedOutcome::Finished(
                    Err(
                        SessionError {
                            kind: ErrorKind::RequestTimeout,
                            message: "no response arrived within the command timeout".to_owned(),
                        },
                    ),
                )
            },
        }
    }

    /// Abandons the in-flight exchange, if any: its pending slot is
    /// dropped, so a response arriving later is discarded, and one cancel
    /// notification is queued for the process.
    pub fn cancel(&mut self) -> (r: bool)
        requires
            old(self).wf(),
        ensures
            final(self).wf(),
            final(self).exchange is None,
            r == (old(self).exchange is Some),
            final(self).docs@ == old(self).docs@,
            final(self).diags@ == old(self).diags@,
            final(self).init == old(self).init,
            final(self).flushed == old(self).flushed,
            final(self).registry.commands@ == old(self).registry.commands@,
            old(self).wire@.is_prefix_of(final(self).wire@),
            !r ==> Self::same_state(*final(self), *old(self)),
            r ==> final(self).correlator.pending@.len() == 0
                && final(self).wire@.len() == old(self).wire@.len() + 1
                && (old(self).exchange matches Some(ex)
                && final(self).wire@.last().command@ == ex.command@
                && final(self).wire@.last().bytes@ == message::note_frame_of(
                "$/cancelRequest"@,
                cancel_params_of(ex.pending_id),
            )),
    {
        match self.exchange.take() {
            None => false,
            Some(ex) => {
                let _ = self.correlator.resolve(ex.pending_id);
                let mut a = Args::new();
                a.push("id".to_owned(), ArgValue::Nat(ex.pending_id));
                proof {
                    let p = a.pairs@;
                    assert(p.len() == 1);
                    assert(p.drop_last() =~= p.take(0));
                    assert(p.take(0) =~= Seq::<(String, ArgValue)>::empty());
                    assert(obj_of(p.take(0)) == "{}"@);
                    assert(obj_of(p) == wire::obj_with_nat("{}"@, "id"@, ex.pending_id));
                }
                let bytes = message::encode_note("$/cancelRequest", &a);
                self.wire.push(OutFrame { command: ex.command, bytes });
                true
            },
        }
    }

    /// Hands out the frames queued since the last call, in send order;
    /// the caller writes them to the process in exactly this order.
    pub fn take_unsent(&mut self) -> (r: Vec<Vec<u8>>)
        requires
            old(self).wf(),
        ensures
            final(self).wf(),
            final(self).flushed == final(self).wire@.len(),
            final(self).init == old(self).init,
            final(self).docs@ == old(self).docs@,
            final(self).diags@ == old(self).diags@,
            final(self).wire@ == old(self).wire@,
            final(self).correlator.pending@ == old(self).correlator.pending@,
            final(self).correlator.next_id == old(self).correlator.next_id,
            final(self).registry.commands@ == old(self).registry.commands@,
            Self::same_exchange(*final(self), *old(self)),
            r@.len() == old(self).wire@.len() - old(self).flushed,
            forall|i: int|
                0 <= i < r@.len() ==> (#[trigger] r@[i])@ == old(self).wire@[old(self).flushed
                    + i].bytes@,
    {
        let mut out: Vec<Vec<u8>> = Vec::new();
        let mut i: usize = self.flushed;
        while i < self.wire.len()
            invariant
                *self == *old(self),
                old(self).flushed <= i <= self.wire@.len(),
                out@.len() == i - old(self).flushed,
                forall|m: int|
                    0 <= m < out@.len() ==> (#[trigger] out@[m])@ == self.wire@[self.flushed
                        + m].bytes@,
            decreases self.wire@.len() - i,
        {
            out.push(copy_bytes(&self.wire[i].bytes));
            i = i + 1;
        }
        self.flushed = self.wire.len();
        out
    }

    /// The per-command timeout of the in-flight exchange, if any.
    pub fn current_timeout_ms(&self) -> (r: Option<u64>)
        ensures
            match self.exchange {
                Some(ex) => r == Some(ex.timeout_ms),
                None => r is None,
            },
    {
        match &self.exchange {
            Some(ex) => Some(ex.timeout_ms),
            None => None,
        }
    }
}

/// The parameter object of a cancel notification.
pub open spec fn cancel_params_of(id: u64) -> Seq<char> {
    wire::obj_with_nat("{}"@, "id"@, id)
}

/// While one command's exchange is in flight, every frame queued since
/// it began carries that command. Together with `submit`, which refuses
/// to start while an exchange is in flight, this is why two commands
/// submitted against one session never interleave their requests on the
/// wire.
pub proof fn lemma_exchange_owns_wire(s: Session)
    requires
        s.wf(),
        s.exchange is Some,
    ensures
        forall|j: int|
            s.exchange.unwrap().wire_start <= j < s.wire@.len() ==> (#[trigger] s.wire@[j]).command@
                == s.exchange.unwrap().command@,
{
}

/// The facts `submit` carries about the found descriptor while it walks
/// the command's document arguments.
pub open spec fn args_ok_inv(
    reg: Registry,
    name: Seq<char>,
    args: Args,
    doc_args: Seq<String>,
    methods: Seq<String>,
    extract: ExtractKind,
    timeout_ms: u64,
) -> bool {
    spec_find(reg.commands@, name) matches Some(d) && {
        &&& d.doc_args@ == doc_args
        &&& d.methods@ == methods
        &&& d.extract == extract
        &&& d.timeout_ms == timeout_ms
        &&& args_match(args, d.fields@)
    }
}

/// The first snapshot entry for `path`, if the caller supplied one.
pub open spec fn snapshot_find(docs: Seq<Document>, path: Seq<char>) -> Option<Document>
    decreases docs.len(),
{
    if docs.len() == 0 {
        None
    } else if docs[0].path@ == path {
        Some(docs[0])
    } else {
        snapshot_find(docs.skip(1), path)
    }
}

/// If the entries before `j` miss `path` and entry `j` carries it, the
/// first match is entry `j`.
pub proof fn lemma_snapshot_find_first(docs: Seq<Document>, path: Seq<char>, j: int)
    requires
        0 <= j < docs.len(),
        forall|m: int| 0 <= m < j ==> #[trigger] docs[m].path@ != path,
        docs[j].path@ == path,
    ensures
        snapshot_find(docs, path) == Some(docs[j]),
    decreases j,
{
    if j == 0 {
    } else {
        assert forall|m: int| 0 <= m < j - 1 implies #[trigger] docs.skip(1)[m].path@ != path by {
            assert(docs.skip(1)[m] == docs[m + 1]);
        }
        assert(docs.skip(1)[j - 1] == docs[j]);
        lemma_snapshot_find_first(docs.skip(1), path, j - 1);
        assert(docs[0].path@ != path);
    }
}

/// If no snapshot entry carries `path`, there is no match.
pub proof fn lemma_snapshot_find_none(docs: Seq<Document>, path: Seq<char>)
    requires
        forall|m: int| 0 <= m < docs.len() ==> #[trigger] docs[m].path@ != path,
    ensures
        snapshot_find(docs, path) is None,
    decreases docs.len(),
{
    if docs.len() > 0 {
        assert forall|m: int|
            0 <= m < docs.skip(1).len() implies #[trigger] docs.skip(1)[m].path@ != path by {
            assert(docs.skip(1)[m] == docs[m + 1]);
        }
        lemma_snapshot_find_none(docs.skip(1), path);
    }
}

/// Looks `path` up in the caller's document snapshot, returning its
/// content.
fn snapshot_get(docs: &Vec<Document>, path: &String) -> (r: Option<String>)
    ensures
        match r {
            Some(c) => snapshot_find(docs@, path@) matches Some(d) && c@ == d.content@,
            None => snapshot_find(docs@, path@) is None,
        },
{
    let n: usize = docs.len();
    let mut j: usize = 0;
    while j < n
        invariant
            n == docs@.len(),
            j <= n,
            forall|m: int| 0 <= m < j ==> #[trigger] docs@[m].path@ != path@,
        decreases n - j,
    {
        if <String as PartialEq>::eq(&docs[j].path, path) {
            proof {
                lemma_snapshot_find_first(docs@, path@, j as int);
            }
            return Some(docs[j].content.clone());
        }
        j = j + 1;
    }
    proof {
        lemma_snapshot_find_none(docs@, path@);
    }
    None
}

/// Whether every document the command touches has its content in the
/// caller's snapshot: each document argument is bound to a path whose
/// content was supplied.
pub open spec fn docs_ok(d: crate::registry::CommandDescriptor, args: Args, docs: Seq<Document>) -> bool {
    forall|j: int|
        0 <= j < d.doc_args@.len() ==> match args.spec_get((#[trigger] d.doc_args@[j])@) {
            Some(v) => v matches ArgValue::Text(p) && snapshot_find(docs, p@) is Some,
            None => false,
        }
}

/// Whether a found command can be executed on this input: the schema is
/// met, every touched document's content was supplied, and the cached
/// diagnostics command names its file.
pub open spec fn submit_acceptable(
    d: crate::registry::CommandDescriptor,
    args: Args,
    docs: Seq<Document>,
) -> bool {
    &&& args_match(args, d.fields@)
    &&& docs_ok(d, args, docs)
    &&& (d.extract == ExtractKind::CachedDiagnostics ==> (args.spec_get("file_path"@) matches Some(
        v,
    ) && v is Text))
}

/// What a successful extraction of `result` under `kind` must be.
pub open spec fn extract_ok(kind: ExtractKind, result: Seq<char>, out: CmdOutcome) -> bool {
    match kind {
        ExtractKind::TextSummary => match wire::wire_text(result) {
            Some(s) => out matches CmdOutcome::Text(t) && t@ == s,
            None => out matches CmdOutcome::Text(t) && t@ == result,
        },
        ExtractKind::LocationList => {
            &&& out matches CmdOutcome::Locations(v) && {
                &&& wire::wire_loc_count(result) == Some(v@.len() as usize)
                &&& forall|i: int|
                    0 <= i < v@.len() ==> wire::wire_loc_at(result, i) == Some(
                        ((#[trigger] v@[i]).path@, v@[i].line, v@[i].character),
                    )
            }
        },
        ExtractKind::EditList => {
            &&& out matches CmdOutcome::Edits(v) && {
                &&& wire::wire_edit_count(result) == Some(v@.len() as usize)
                &&& forall|i: int|
                    0 <= i < v@.len() ==> wire::wire_edit_at(result, i) == Some(
                        (
                            (#[trigger] v@[i]).path@,
                            v@[i].start_line,
                            v@[i].start_character,
                            v@[i].end_line,
                            v@[i].end_character,
                            v@[i].new_text@,
                        ),
                    )
            }
        },
        ExtractKind::CachedDiagnostics => false,
    }
}

/// When extraction of `result` under `kind` must fail as malformed: the
/// result does not have the shape the command's extractor declares.
pub open spec fn extract_fails(kind: ExtractKind, result: Seq<char>) -> bool {
    match kind {
        ExtractKind::TextSummary => false,
        ExtractKind::LocationList => match wire::wire_loc_count(result) {
            None => true,
            Some(n) => exists|i: int|
                0 <= i < n && (#[trigger] wire::wire_loc_at(result, i)) is None,
        },
        ExtractKind::EditList => match wire::wire_edit_count(result) {
            None => true,
            Some(n) => exists|i: int|
                0 <= i < n && (#[trigger] wire::wire_edit_at(result, i)) is None,
        },
        ExtractKind::CachedDiagnostics => true,
    }
}

/// Converts a final response result into the command's declared shape; a
/// result of the wrong shape is a malformed response.
pub fn extract_result(kind: ExtractKind, result: String) -> (r: Result<CmdOutcome, SessionError>)
    requires
        kind != ExtractKind::CachedDiagnostics,
    ensures
        match r {
            Ok(out) => extract_ok(kind, result@, out),
            Err(e) => e.kind == ErrorKind::MalformedMessage && extract_fails(kind, result@),
        },
{
    if kind == ExtractKind::TextSummary {
        match wire::text_of(result.as_str()) {
            Some(s) => Ok(CmdOutcome::Text(s)),
            None => Ok(CmdOutcome::Text(result)),
        }
    } else if kind == ExtractKind::LocationList {
            let count = match wire::loc_count_of(result.as_str()) {
                Some(c) => c,
                None => {
                    return Err(
                        SessionError {
                            kind: ErrorKind::MalformedMessage,
                            message: "response is not a location list".to_owned(),
                        },
                    );
                },
            };
            let mut v: Vec<Location> = Vec::new();
            let mut i: usize = 0;
            while i < count
                invariant
                    kind == ExtractKind::LocationList,
                    i <= count,
                    wire::wire_loc_count(result@) == Some(count),
                    v@.len() == i,
                    forall|m: int|
                        0 <= m < i ==> wire::wire_loc_at(result@, m) == Some(
                            ((#[trigger] v@[m]).path@, v@[m].line, v@[m].character),
                        ),
                decreases count - i,
            {
                match wire::loc_at_of(result.as_str(), i) {
                    Some(l) => {
                        v.push(l);
                    },
                    None => {
                        proof {
                            assert(0 <= i < count && wire::wire_loc_at(result@, i as int) is None);
                        }
                        return Err(
                            SessionError {
                                kind: ErrorKind::MalformedMessage,
                                message: "location entry is malformed".to_owned(),
                            },
                        );
                    },
                }
                i = i + 1;
            }
            Ok(CmdOutcome::Locations(v))
    } else if kind == ExtractKind::EditList {
            let count = match wire::edit_count_of(result.as_str()) {
                Some(c) => c,
                None => {
                    return Err(
                        SessionError {
                            kind: ErrorKind::MalformedMessage,
                            message: "response is not an edit list".to_owned(),
                        },
                    );
                },
            };
            let mut v: Vec<Edit> = Vec::new();
            let mut i: usize = 0;
            while i < count
                invariant
                    kind == ExtractKind::EditList,
                    i <= count,
                    wire::wire_edit_count(result@) == Some(count),
                    v@.len() == i,
                    forall|m: int|
                        0 <= m < i ==> wire::wire_edit_at(result@, m) == Some(
                            (
                                (#[trigger] v@[m]).path@,
                                v@[m].start_line,
                                v@[m].start_character,
                                v@[m].end_line,
                                v@[m].end_character,
                                v@[m].new_text@,
                            ),
                        ),
                decreases count - i,
            {
                match wire::edit_at_of(result.as_str(), i) {
                    Some(e) => {
                        v.push(e);
                    },
                    None => {
                        proof {
                            assert(0 <= i < count && wire::wire_edit_at(result@, i as int) is None);
                        }
                        return Err(
                            SessionError {
                                kind: ErrorKind::MalformedMessage,
                                message: "edit entry is malformed".to_owned(),
                            },
                        );
                    },
                }
                i = i + 1;
            }
            Ok(CmdOutcome::Edits(v))
    } else {
        Err(
            SessionError {
                kind: ErrorKind::MalformedMessage,
                message: "diagnostics are served from the cache".to_owned(),
            },
        )
    }
}

/// Queues the notes of `plan` from `start` on, then the next request,
/// allocating its identifier. Every queued frame carries `command`, each
/// note's bytes are exactly its plan item's frame, and the final frame is
/// exactly the request's frame under the fresh identifier.
fn emit_steps(
    command: &String,
    args: &Args,
    plan: &Vec<PlanItem>,
    start: usize,
    correlator: &mut Correlator,
    wire_log: &mut Vec<OutFrame>,
) -> (r: (usize, u64))
    requires
        old(correlator).wf(),
        old(correlator).next_id < u64::MAX,
        start < plan@.len(),
        plan@.last() is Request,
    ensures
        start <= r.0 < plan@.len(),
        is_request(plan@[r.0 as int]),
        forall|m: int| start <= m < r.0 ==> !is_request(#[trigger] plan@[m]),
        r.1 == old(correlator).next_id,
        final(correlator).wf(),
        final(correlator).pending@ == old(correlator).pending@.push(
            PendingRequest { id: r.1, command: *command },
        ),
        final(correlator).next_id == old(correlator).next_id + 1,
        old(wire_log)@.is_prefix_of(final(wire_log)@),
        final(wire_log)@.len() == old(wire_log)@.len() + (r.0 - start) + 1,
        forall|j: int|
            old(wire_log)@.len() <= j < final(wire_log)@.len()
                ==> (#[trigger] final(wire_log)@[j]).command@ == command@,
        forall|m: int|
            start <= m < r.0 ==> final(wire_log)@[old(wire_log)@.len() + (m - start)].bytes@
                == plan_note_frame(#[trigger] plan@[m]),
        final(wire_log)@.last().bytes@ == plan_request_frame(r.1, plan@[r.0 as int], *args),
{
    let ghost c0 = *correlator;
    let ghost w0 = wire_log@;
    let n: usize = plan.len();
    let mut j: usize = start;
    while j < n
        invariant
            n == plan@.len(),
            start <= j <= plan@.len(),
            plan@.last() is Request,
            c0 == *old(correlator),
            w0 == old(wire_log)@,
            forall|m: int| start <= m < j ==> !is_request(#[trigger] plan@[m]),
            correlator.wf(),
            correlator.next_id == c0.next_id,
            correlator.next_id < u64::MAX,
            correlator.pending@ == c0.pending@,
            w0.is_prefix_of(wire_log@),
            wire_log@.len() == w0.len() + (j - start),
            forall|m: int|
                w0.len() <= m < wire_log@.len() ==> (#[trigger] wire_log@[m]).command@ == command@,
            forall|m: int|
                start <= m < j ==> wire_log@[w0.len() + (m - start)].bytes@ == plan_note_frame(
                    #[trigger] plan@[m],
                ),
        decreases plan@.len() - j,
    {
        let is_req = match &plan[j] {
            PlanItem::Handshake => true,
            PlanItem::Request { .. } => true,
            _ => false,
        };
        if is_req {
            let id = correlator.allocate(command.clone());
            let bytes = match &plan[j] {
                PlanItem::Handshake => {
                    let empty = Args::new();
                    proof {
                        assert(empty.pairs@ =~= Seq::<(String, ArgValue)>::empty());
                    }
                    message::encode_request(id, "initialize", &empty)
                },
                PlanItem::Request { method } => message::encode_request(id, method.as_str(), args),
                _ => Vec::new(),
            };
            wire_log.push(OutFrame { command: command.clone(), bytes });
            return (j, id);
        }
        let bytes = match &plan[j] {
            PlanItem::OpenDoc { path, version, text } => encode_open_note(path, *version, text),
            PlanItem::ChangeDoc { path, version, text } => encode_change_note(path, *version, text),
            _ => Vec::new(),
        };
        wire_log.push(OutFrame { command: command.clone(), bytes });
        proof {
            assert(plan@[plan@.len() - 1] is Request);
            assert(j < plan@.len() - 1);
        }
        j = j + 1;
    }
    proof {
        assert(is_request(plan@[plan@.len() - 1]));
        assert(false);
    }
    (0, 0)
}

/// A field-for-field copy of a diagnostic list.
pub fn copy_diags(v: &Vec<Diagnostic>) -> (r: Vec<Diagnostic>)
    ensures
        r@ == v@,
{
    let mut r: Vec<Diagnostic> = Vec::new();
    let n: usize = v.len();
    let mut i: usize = 0;
    proof {
        assert(v@.take(0) =~= Seq::<Diagnostic>::empty());
    }
    while i < n
        invariant
            n == v@.len(),
            i <= n,
            r@ == v@.take(i as int),
        decreases n - i,
    {
        let d = &v[i];
        let c = Diagnostic {
            start_line: d.start_line,
            start_character: d.start_character,
            end_line: d.end_line,
            end_character: d.end_character,
            severity: d.severity,
            message: d.message.clone(),
            source: d.source.clone(),
        };
        proof {
            assert(c == v@[i as int]);
        }
        r.push(c);
        proof {
            assert(v@.take(i as int).push(v@[i as int]) =~= v@.take(i as int + 1));
        }
        i = i + 1;
    }
    proof {
        assert(v@.take(n as int) =~= v@);
    }
    r
}

/// A copy of a string list, view for view.
pub fn copy_strings(v: &Vec<String>) -> (r: Vec<String>)
    ensures
        r@ == v@,
{
    let mut r: Vec<String> = Vec::new();
    let n: usize = v.len();
    let mut i: usize = 0;
    proof {
        assert(v@.take(0) =~= Seq::<String>::empty());
    }
    while i < n
        invariant
            n == v@.len(),
            i <= n,
            r@ == v@.take(i as int),
        decreases n - i,
    {
        r.push(v[i].clone());
        proof {
            assert(v@.take(i as int).push(v@[i as int]) =~= v@.take(i as int + 1));
        }
        i = i + 1;
    }
    proof {
        assert(v@.take(n as int) =~= v@);
    }
    r
}

/// A copy of a byte buffer.
pub fn copy_bytes(v: &Vec<u8>) -> (r: Vec<u8>)
    ensures
        r@ == v@,
{
    let mut r: Vec<u8> = Vec::new();
    let n: usize = v.len();
    let mut i: usize = 0;
    proof {
        assert(v@.take(0) =~= Seq::<u8>::empty());
    }
    while i < n
        invariant
            n == v@.len(),
            i <= n,
            r@ == v@.take(i as int),
        decreases n - i,
    {
        r.push(v[i]);
        proof {
            assert(v@.take(i as int).push(v@[i as int]) =~= v@.take(i as int + 1));
        }
        i = i + 1;
    }
    proof {
        assert(v@.take(n as int) =~= v@);
    }
    r
}

} // verus!
