//! Per-session document and diagnostics state.

use vstd::prelude::*;

use vstd::std_specs::iter::IteratorSpec;

use crate::types::Diagnostic;

verus! {

/// How far the one-time initialization handshake has come.
#[derive(Clone, Copy, Debug, PartialEq, Eq, Structural)]
pub enum InitStatus {
    NotStarted,
    Initializing,
    Ready,
    Failed,
}

/// The session's record of one source file's state as the analyzer knows
/// it.
#[derive(Clone, Debug)]
pub struct DocumentHandle {
    pub path: String,
    pub version: u64,
    pub content_hash: u64,
    pub open: bool,
}

/// What bringing a document up to date requires on the wire.
#[derive(Clone, Copy, Debug, PartialEq, Eq, Structural)]
pub enum OpenAction {
    /// The document was not open: one "document opened" notification.
    SentOpen,
    /// The document was open with other content: one "document changed"
    /// notification.
    SentChange,
    /// The document is open and unchanged: nothing at all.
    AlreadyCurrent,
}

/// The latest diagnostics the analyzer published for one document.
#[derive(Clone, Debug)]
pub struct DiagRecord {
    pub path: String,
    pub items: Vec<Diagnostic>,
}

/// One step of the rolling content hash.
pub open spec fn hash_step(h: u64, c: char) -> u64 {
    ((h * 31 + c as u32) % 0x1_0000_0000_0000_0000) as u64
}

/// The rolling hash of a document's content: a function of the text
/// alone, so equal contents always hash alike.
pub open spec fn hash_of(text: Seq<char>) -> u64
    decreases text.len(),
{
    if text.len() == 0 {
        17
    } else {
        hash_step(hash_of(text.drop_last()), text.last())
    }
}

/// Computes the rolling hash of a document's content.
pub fn content_hash(content: &str) -> (h: u64)
    ensures
        h == hash_of(content@),
{
    broadcast use vstd::string::axiom_spec_iter, vstd::string::next_postcondition;

    let ghost all = content@;
    let mut it = content.chars();
    let mut h: u64 = 17;
    let ghost mut i: int = 0;
    proof {
        assert(all.take(0) =~= Seq::<char>::empty());
        assert(all.skip(0) =~= all);
    }
    loop
        invariant
            0 <= i <= all.len(),
            it.remaining() =~= all.skip(i),
            h == hash_of(all.take(i)),
        ensures
            i == all.len(),
            h == hash_of(all.take(i)),
        decreases all.len() - i,
    {
        match it.next() {
            None => {
                proof {
                    assert(all.skip(i).len() == 0);
                }
                break ;
            },
            Some(c) => {
                let x: u128 = (h as u128) * 31 + (c as u32 as u128);
                h = (x % 0x1_0000_0000_0000_0000u128) as u64;
                proof {
                    assert(c == all.skip(i)[0]);
                    assert(c == all[i]);
                    assert(all.take(i + 1).drop_last() =~= all.take(i));
                    assert(all.take(i + 1).last() == all[i]);
                    assert(all.skip(i).drop_first() =~= all.skip(i + 1));
                    i = i + 1;
                }
            },
        }
    }
    proof {
        assert(all.take(all.len() as int) =~= all);
    }
    h
}

/// The first handle recorded for `path`, if any.
pub open spec fn doc_find(docs: Seq<DocumentHandle>, path: Seq<char>) -> Option<DocumentHandle>
    decreases docs.len(),
{
    if docs.len() == 0 {
        None
    } else if docs[0].path@ == path {
        Some(docs[0])
    } else {
        doc_find(docs.skip(1), path)
    }
}

/// What bringing `path` with content hash `h` up to date requires, given
/// the current document table.
pub open spec fn open_decision(docs: Seq<DocumentHandle>, path: Seq<char>, h: u64) -> OpenAction {
    match doc_find(docs, path) {
        None => OpenAction::SentOpen,
        Some(d) => if !d.open {
            OpenAction::SentOpen
        } else if d.content_hash != h {
            OpenAction::SentChange
        } else {
            OpenAction::AlreadyCurrent
        },
    }
}

/// A version bump that stops at the top rather than wrapping.
pub open spec fn bump(v: u64) -> u64 {
    if v == u64::MAX {
        v
    } else {
        (v + 1) as u64
    }
}

/// If the entries before `j` miss `path` and entry `j` carries it, the
/// first match is entry `j`.
pub proof fn lemma_doc_find_first(docs: Seq<DocumentHandle>, path: Seq<char>, j: int)
    requires
        0 <= j < docs.len(),
        forall|m: int| 0 <= m < j ==> #[trigger] docs[m].path@ != path,
        docs[j].path@ == path,
    ensures
        doc_find(docs, path) == Some(docs[j]),
    decreases j,
{
    if j == 0 {
    } else {
        assert forall|m: int| 0 <= m < j - 1 implies #[trigger] docs.skip(1)[m].path@ != path by {
            assert(docs.skip(1)[m] == docs[m + 1]);
        }
        assert(docs.skip(1)[j - 1] == docs[j]);
        lemma_doc_find_first(docs.skip(1), path, j - 1);
        assert(docs[0].path@ != path);
    }
}

/// If no entry carries `path`, there is no match.
pub proof fn lemma_doc_find_none(docs: Seq<DocumentHandle>, path: Seq<char>)
    requires
        forall|m: int| 0 <= m < docs.len() ==> #[trigger] docs[m].path@ != path,
    ensures
        doc_find(docs, path) is None,
    decreases docs.len(),
{
    if docs.len() > 0 {
        assert forall|m: int|
            0 <= m < docs.skip(1).len() implies #[trigger] docs.skip(1)[m].path@ != path by {
            assert(docs.skip(1)[m] == docs[m + 1]);
        }
        lemma_doc_find_none(docs.skip(1), path);
    }
}

/// Replacing the entry at `j` by one for the same path leaves every
/// other path's first match unchanged.
pub proof fn lemma_doc_find_other_update(
    s: Seq<DocumentHandle>,
    s2: Seq<DocumentHandle>,
    j: int,
    q: Seq<char>,
)
    requires
        s.len() == s2.len(),
        0 <= j < s.len(),
        forall|m: int| 0 <= m < s.len() && m != j ==> s2[m] == #[trigger] s[m],
        s[j].path@ != q,
        s2[j].path@ != q,
    ensures
        doc_find(s2, q) == doc_find(s, q),
    decreases s.len(),
{
    if j == 0 {
        assert(s.skip(1) =~= s2.skip(1)) by {
            assert forall|m: int| 0 <= m < s.skip(1).len() implies s.skip(1)[m] == s2.skip(
                1,
            )[m] by {
                assert(s.skip(1)[m] == s[m + 1]);
                assert(s2.skip(1)[m] == s2[m + 1]);
            }
        }
        assert(s[0].path@ != q && s2[0].path@ != q);
    } else {
        assert(s2[0] == s[0]);
        if s[0].path@ != q {
            assert forall|m: int|
                0 <= m < s.skip(1).len() && m != j - 1 implies s2.skip(1)[m] == #[trigger] s.skip(
                1,
            )[m] by {
                assert(s.skip(1)[m] == s[m + 1]);
                assert(s2.skip(1)[m] == s2[m + 1]);
            }
            assert(s.skip(1)[j - 1] == s[j]);
            assert(s2.skip(1)[j - 1] == s2[j]);
            lemma_doc_find_other_update(s.skip(1), s2.skip(1), j - 1, q);
        }
    }
}

/// Appending a handle for another path leaves a path's first match
/// unchanged.
pub proof fn lemma_doc_find_push_other(s: Seq<DocumentHandle>, d: DocumentHandle, q: Seq<char>)
    requires
        d.path@ != q,
    ensures
        doc_find(s.push(d), q) == doc_find(s, q),
    decreases s.len(),
{
    if s.len() == 0 {
        assert(s.push(d)[0] == d);
        assert(s.push(d).skip(1) =~= Seq::<DocumentHandle>::empty());
        assert(doc_find(Seq::<DocumentHandle>::empty(), q) is None);
        assert(doc_find(s.push(d), q) is None);
    } else {
        assert(s.push(d)[0] == s[0]);
        assert(s.push(d).skip(1) =~= s.skip(1).push(d));
        lemma_doc_find_push_other(s.skip(1), d, q);
        assert(doc_find(s.push(d).skip(1), q) == doc_find(s.skip(1), q));
    }
}

/// The latest cached diagnostics for `path`: the first record's items, or
/// nothing when none has arrived yet.
pub open spec fn diags_for(records: Seq<DiagRecord>, path: Seq<char>) -> Seq<Diagnostic>
    decreases records.len(),
{
    if records.len() == 0 {
        Seq::empty()
    } else if records[0].path@ == path {
        records[0].items@
    } else {
        diags_for(records.skip(1), path)
    }
}

/// If the records before `j` miss `path` and record `j` carries it, the
/// cache read returns record `j`'s items.
pub proof fn lemma_diags_for_at(records: Seq<DiagRecord>, path: Seq<char>, j: int)
    requires
        0 <= j < records.len(),
        forall|m: int| 0 <= m < j ==> #[trigger] records[m].path@ != path,
        records[j].path@ == path,
    ensures
        diags_for(records, path) == records[j].items@,
    decreases j,
{
    if j == 0 {
    } else {
        assert forall|m: int|
            0 <= m < j - 1 implies #[trigger] records.skip(1)[m].path@ != path by {
            assert(records.skip(1)[m] == records[m + 1]);
        }
        assert(records.skip(1)[j - 1] == records[j]);
        lemma_diags_for_at(records.skip(1), path, j - 1);
        assert(records[0].path@ != path);
    }
}

/// If no record carries `path`, the cache read is empty.
pub proof fn lemma_diags_for_none(records: Seq<DiagRecord>, path: Seq<char>)
    requires
        forall|m: int| 0 <= m < records.len() ==> #[trigger] records[m].path@ != path,
    ensures
        diags_for(records, path) == Seq::<Diagnostic>::empty(),
    decreases records.len(),
{
    if records.len() > 0 {
        assert forall|m: int|
            0 <= m < records.skip(1).len() implies #[trigger] records.skip(1)[m].path@ != path by {
            assert(records.skip(1)[m] == records[m + 1]);
        }
        lemma_diags_for_none(records.skip(1), path);
    }
}

/// Replacing the record at `j` by one for the same path leaves every
/// other path's cached diagnostics unchanged.
pub proof fn lemma_diags_other_update(s: Seq<DiagRecord>, s2: Seq<DiagRecord>, j: int, q: Seq<char>)
    requires
        s.len() == s2.len(),
        0 <= j < s.len(),
        forall|m: int| 0 <= m < s.len() && m != j ==> s2[m] == #[trigger] s[m],
        s[j].path@ != q,
        s2[j].path@ != q,
    ensures
        diags_for(s2, q) == diags_for(s, q),
    decreases s.len(),
{
    if j == 0 {
        assert(s.skip(1) =~= s2.skip(1)) by {
            assert forall|m: int| 0 <= m < s.skip(1).len() implies s.skip(1)[m] == s2.skip(
                1,
            )[m] by {
                assert(s.skip(1)[m] == s[m + 1]);
                assert(s2.skip(1)[m] == s2[m + 1]);
            }
        }
        assert(s[0].path@ != q && s2[0].path@ != q);
    } else {
        assert(s2[0] == s[0]);
        if s[0].path@ != q {
            assert forall|m: int|
                0 <= m < s.skip(1).len() && m != j - 1 implies s2.skip(1)[m] == #[trigger] s.skip(
                1,
            )[m] by {
                assert(s.skip(1)[m] == s[m + 1]);
                assert(s2.skip(1)[m] == s2[m + 1]);
            }
            assert(s.skip(1)[j - 1] == s[j]);
            assert(s2.skip(1)[j - 1] == s2[j]);
            lemma_diags_other_update(s.skip(1), s2.skip(1), j - 1, q);
        }
    }
}

/// Appending a record for another path leaves a path's cached
/// diagnostics unchanged.
pub proof fn lemma_diags_push_other(s: Seq<DiagRecord>, d: DiagRecord, q: Seq<char>)
    requires
        d.path@ != q,
    ensures
        diags_for(s.push(d), q) == diags_for(s, q),
    decreases s.len(),
{
    if s.len() == 0 {
        assert(s.push(d)[0] == d);
        assert(s.push(d).skip(1) =~= Seq::<DiagRecord>::empty());
        assert(diags_for(Seq::<DiagRecord>::empty(), q) == Seq::<Diagnostic>::empty());
        assert(diags_for(s.push(d), q) == Seq::<Diagnostic>::empty());
    } else {
        assert(s.push(d)[0] == s[0]);
        assert(s.push(d).skip(1) =~= s.skip(1).push(d));
        lemma_diags_push_other(s.skip(1), d, q);
        assert(diags_for(s.push(d).skip(1), q) == diags_for(s.skip(1), q));
    }
}

/// A document that is already open with the same content needs nothing:
/// opening twice without modification sends at most one notification.
pub proof fn lemma_reopen_current(docs: Seq<DocumentHandle>, path: Seq<char>, h: u64)
    requires
        doc_find(docs, path) matches Some(d) && d.open && d.content_hash == h,
    ensures
        open_decision(docs, path, h) == OpenAction::AlreadyCurrent,
{
}

/// A document open under other content needs exactly a change
/// notification, never a second open.
pub proof fn lemma_reopen_changed(docs: Seq<DocumentHandle>, path: Seq<char>, h: u64)
    requires
        doc_find(docs, path) matches Some(d) && d.open && d.content_hash != h,
    ensures
        open_decision(docs, path, h) == OpenAction::SentChange,
{
}

} // verus!
