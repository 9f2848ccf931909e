//! The page at which each document was left, kept from one run to the next.

use vstd::prelude::*;

verus! {

/// The error of the history decoder.
#[verifier::external_type_specification]
#[verifier::external_body]
pub struct ExBitcodeError(bitcode::Error);

/// A list of paths and pages, as contracts speak of it.
pub open spec fn entries_view(v: Seq<(String, usize)>) -> Seq<(Seq<char>, usize)> {
    Seq::new(v.len(), |i: int| (v[i].0@, v[i].1))
}

/// The list of paths and pages that bytes stand for, if they stand for one.
pub uninterp spec fn bitcode_decoding(bytes: Seq<u8>) -> Option<Seq<(Seq<char>, usize)>>;

/// Calls `bitcode::encode` on the list. The claim is that `bitcode::decode`
/// reads the same entries, in the same order, out of the bytes again.
#[verifier::external_body]
fn bitcode_encode(entries: &Vec<(String, usize)>) -> (bytes: Vec<u8>)
    ensures
        bitcode_decoding(bytes@) == Some(entries_view(entries@)),
{
    bitcode::encode(entries)
}

/// Calls `bitcode::decode` for a list of paths and pages. The claim is that
/// what it reads, and whether it reads anything, depends on the bytes alone.
#[verifier::external_body]
fn bitcode_decode(bytes: &[u8]) -> (r: Result<Vec<(String, usize)>, bitcode::Error>)
    ensures
        match r {
            Ok(entries) => bitcode_decoding(bytes@) == Some(entries_view(entries@)),
            Err(_) => bitcode_decoding(bytes@) is None,
        },
{
    bitcode::decode(bytes)
}

/// The words of `bitcode::Error`, by its `Display`.
#[verifier::external_body]
fn bitcode_error_text(e: &bitcode::Error) -> (s: String) {
    e.to_string()
}

/// The pages that a list of paths and pages gives: for each path the page of
/// its last entry.
pub open spec fn entries_map(entries: Seq<(Seq<char>, usize)>) -> Map<Seq<char>, usize>
    decreases entries.len(),
{
    if entries.len() == 0 {
        Map::empty()
    } else {
        entries_map(entries.drop_last()).insert(entries.last().0, entries.last().1)
    }
}

/// No path has two entries.
pub open spec fn distinct_paths(entries: Seq<(Seq<char>, usize)>) -> bool {
    forall|i: int, j: int|
        0 <= i < j < entries.len() ==> (#[trigger] entries[i]).0 != (#[trigger] entries[j]).0
}

/// The history that bytes stand for, if they stand for one.
pub open spec fn decoded_history(bytes: Seq<u8>) -> Option<Map<Seq<char>, usize>> {
    match bitcode_decoding(bytes) {
        Some(entries) => Some(entries_map(entries)),
        None => None,
    }
}

proof fn lemma_entry_is_mapped(entries: Seq<(Seq<char>, usize)>, i: int)
    requires
        distinct_paths(entries),
        0 <= i < entries.len(),
    ensures
        entries_map(entries).contains_key(entries[i].0),
        entries_map(entries)[entries[i].0] == entries[i].1,
    decreases entries.len(),
{
    if i < entries.len() - 1 {
        let rest = entries.drop_last();
        assert(rest[i] == entries[i]);
        assert(entries.last() == entries[entries.len() - 1]);
        lemma_entry_is_mapped(rest, i);
    }
}

proof fn lemma_absent_is_unmapped(entries: Seq<(Seq<char>, usize)>, path: Seq<char>)
    requires
        forall|i: int| 0 <= i < entries.len() ==> (#[trigger] entries[i]).0 != path,
    ensures
        !entries_map(entries).contains_key(path),
    decreases entries.len(),
{
    if entries.len() > 0 {
        let rest = entries.drop_last();
        assert forall|i: int| 0 <= i < rest.len() implies (#[trigger] rest[i]).0 != path by {
            assert(rest[i] == entries[i]);
        }
        assert(entries.last() == entries[entries.len() - 1]);
        lemma_absent_is_unmapped(rest, path);
    }
}

proof fn lemma_replaced_entry(entries: Seq<(Seq<char>, usize)>, i: int, page: usize)
    requires
        distinct_paths(entries),
        0 <= i < entries.len(),
    ensures
        distinct_paths(entries.update(i, (entries[i].0, page))),
        entries_map(entries.update(i, (entries[i].0, page))) == entries_map(entries).insert(
            entries[i].0,
            page,
        ),
    decreases entries.len(),
{
    let path = entries[i].0;
    let changed = entries.update(i, (path, page));
    assert(distinct_paths(changed)) by {
        assert forall|a: int, b: int| 0 <= a < b < changed.len() implies (#[trigger] changed[a]).0 != (
        #[trigger] changed[b]).0 by {
            assert(entries[a].0 != entries[b].0);
        }
    }
    let rest = entries.drop_last();
    if i == entries.len() - 1 {
        assert(changed.drop_last() =~= rest);
        assert(entries_map(changed) =~= entries_map(entries).insert(path, page));
    } else {
        assert(rest[i] == entries[i]);
        assert(distinct_paths(rest)) by {
            assert forall|a: int, b: int| 0 <= a < b < rest.len() implies (#[trigger] rest[a]).0 != (
            #[trigger] rest[b]).0 by {
                assert(rest[a] == entries[a] && rest[b] == entries[b]);
            }
        }
        lemma_replaced_entry(rest, i, page);
        assert(changed.drop_last() =~= rest.update(i, (path, page)));
        assert(changed.last() == entries.last());
        assert(entries.last() == entries[entries.len() - 1]);
        assert(entries.last().0 != path);
        assert(entries_map(changed) =~= entries_map(entries).insert(path, page));
    }
}

/// What can go wrong with the history.
#[derive(Debug, Clone, PartialEq, Eq)]
pub enum HistoryError {
    /// The bytes are no history; the decoder's words say why.
    Decode(String),
}

/// For each document, by its path, the page that was open when it was
/// left, zero-based.
pub struct DocumentHistory {
    last_pages_opened: Vec<(String, usize)>,
}

impl View for DocumentHistory {
    type V = Map<Seq<char>, usize>;

    closed spec fn view(&self) -> Map<Seq<char>, usize> {
        entries_map(entries_view(self.last_pages_opened@))
    }
}

impl Default for DocumentHistory {
    fn default() -> (h: Self)
        ensures
            h.wf(),
            h@ == Map::<Seq<char>, usize>::empty(),
    {
        DocumentHistory { last_pages_opened: Vec::new() }
    }
}

impl DocumentHistory {
    /// No path is kept twice.
    pub closed spec fn wf(&self) -> bool {
        distinct_paths(entries_view(self.last_pages_opened@))
    }

    /// How many documents are kept.
    pub closed spec fn count(&self) -> nat {
        self.last_pages_opened@.len()
    }

    /// Whether no document is kept.
    pub fn is_empty(&self) -> (b: bool)
        requires
            self.wf(),
        ensures
            b == (self.count() == 0),
            b == (self@ == Map::<Seq<char>, usize>::empty()),
    {
        proof {
            let e = entries_view(self.last_pages_opened@);
            if e.len() > 0 {
                lemma_entry_is_mapped(e, 0);
            } else {
                assert(self@ =~= Map::<Seq<char>, usize>::empty());
            }
        }
        self.last_pages_opened.len() == 0
    }

    fn position(&self, path: &String) -> (r: Option<usize>)
        ensures
            match r {
                Some(i) => i < self.last_pages_opened@.len() && self.last_pages_opened@[i as int].0@
                    == path@,
                None => forall|i: int|
                    0 <= i < self.last_pages_opened@.len() ==> (#[trigger] entries_view(
                        self.last_pages_opened@,
                    )[i]).0 != path@,
            },
    {
        let mut i: usize = 0;
        while i < self.last_pages_opened.len()
            invariant
                i <= self.last_pages_opened.len(),
                forall|j: int|
                    0 <= j < i ==> (#[trigger] entries_view(self.last_pages_opened@)[j]).0 != path@,
            decreases self.last_pages_opened.len() - i,
        {
            if self.last_pages_opened[i].0 == *path {
                return Some(i);
            }
            i = i + 1;
        }
        None
    }

    /// The page at which the document at `path` was left, if it is kept.
    pub fn get(&self, path: &str) -> (r: Option<usize>)
        requires
            self.wf(),
        ensures
            r == if self@.contains_key(path@) {
                Some(self@[path@])
            } else {
                None
            },
    {
        let owned = path.to_owned();
        let ghost e = entries_view(self.last_pages_opened@);
        match self.position(&owned) {
            Some(i) => {
                proof {
                    lemma_entry_is_mapped(e, i as int);
                }
                Some(self.last_pages_opened[i].1)
            },
            None => {
                proof {
                    lemma_absent_is_unmapped(e, path@);
                }
                None
            },
        }
    }

    /// Notes that the document at `path` was left at `page`.
    pub fn insert(&mut self, path: String, page: usize)
        requires
            old(self).wf(),
        ensures
            final(self).wf(),
            final(self)@ == old(self)@.insert(path@, page),
    {
        let ghost e = entries_view(self.last_pages_opened@);
        match self.position(&path) {
            Some(i) => {
                proof {
                    lemma_replaced_entry(e, i as int, page);
                }
                self.last_pages_opened.set(i, (path, page));
                assert(entries_view(self.last_pages_opened@) =~= e.update(i as int, (e[i as int].0, page)));
            },
            None => {
                self.last_pages_opened.push((path, page));
                let ghost e2 = entries_view(self.last_pages_opened@);
                assert(e2.drop_last() =~= e);
                assert(e2.last() == (path@, page));
                assert(distinct_paths(e2)) by {
                    assert forall|a: int, b: int| 0 <= a < b < e2.len() implies (#[trigger] e2[a]).0 != (
                    #[trigger] e2[b]).0 by {
                        assert(e2[a] == e[a]);
                        if b < e.len() {
                            assert(e2[b] == e[b]);
                        }
                    }
                }
            },
        }
    }

    /// The bytes that are written to disk. Reading them gives the same
    /// history again.
    pub fn encode(&self) -> (bytes: Vec<u8>)
        ensures
            decoded_history(bytes@) == Some(self@),
    {
        bitcode_encode(&self.last_pages_opened)
    }

    /// The history that was written to disk as `bytes`. Bytes that are no
    /// history are answered by an error.
    pub fn decode(bytes: &[u8]) -> (r: Result<Self, HistoryError>)
        ensures
            match r {
                Ok(h) => h.wf() && decoded_history(bytes@) == Some(h@),
                Err(_) => decoded_history(bytes@) is None,
            },
    {
        match bitcode_decode(bytes) {
            Ok(entries) => {
                let mut h = DocumentHistory { last_pages_opened: Vec::new() };
                let ghost e = entries_view(entries@);
                // a path that the bytes hold twice keeps its last page
                let n = entries.len();
                let mut i: usize = 0;
                assert(e.take(0) =~= Seq::empty());
                while i < n
                    invariant
                        i <= n,
                        n == e.len(),
                        h.wf(),
                        h@ == entries_map(e.take(i as int)),
                        entries_view(entries@) == e,
                    decreases n - i,
                {
                    let path = entries[i].0.clone();
                    let page = entries[i].1;
                    proof {
                        assert(e.take(i + 1).drop_last() =~= e.take(i as int));
                        assert(e.take(i + 1).last() == e[i as int]);
                    }
                    h.insert(path, page);
                    i = i + 1;
                }
                assert(e.take(n as int) =~= e);
                Ok(h)
            },
            Err(e) => {
                let mut s = String::new();
                s.append("Failed to decode history file: ");
                let words = bitcode_error_text(&e);
                s.append(words.as_str());
                Err(HistoryError::Decode(s))
            },
        }
    }
}

} // verus!
