//! The monitoring state: the last fingerprint of each watched page, and the
//! decision whether a freshly read page has changed.
use crate::digest::{digest, sha1_hex};
use vstd::prelude::*;

verus! {

/// Why a page could not be read: its address and a description of the cause.
#[derive(Clone, Debug)]
pub struct FetchError {
    pub url: String,
    pub cause: String,
}

/// One watched page and the fingerprint of its last content (empty before the
/// first successful read).
#[derive(Clone, Debug)]
pub struct Entry {
    pub url: String,
    pub fingerprint: String,
}

impl View for Entry {
    type V = (Seq<char>, Seq<char>);

    open spec fn view(&self) -> (Seq<char>, Seq<char>) {
        (self.url@, self.fingerprint@)
    }
}

/// What a check of one page found.
#[derive(Clone, Debug)]
pub enum Outcome {
    /// The content has the stored fingerprint.
    Unchanged,
    /// The content has a new fingerprint, which is now stored.
    Changed(String),
    /// The page could not be read; nothing was stored.
    FetchFailed(FetchError),
}

/// The fingerprint of each watched page, one entry per distinct address.
pub struct MonitorState {
    entries: Vec<Entry>,
}

/// The content that a fetch delivered, if it succeeded.
pub open spec fn fetched_content(fetched: Result<String, FetchError>) -> Option<Seq<char>> {
    match fetched {
        Ok(c) => Some(c@),
        Err(_) => None,
    }
}

/// Whether content read now differs from what the stored fingerprint was taken of.
pub open spec fn changes(stored: Seq<char>, content: Seq<char>) -> bool {
    sha1_hex(content) != stored
}

/// The entries after content was read for entry `i`: its fingerprint becomes the
/// content's digest, and an equal digest leaves the entries as they were.
pub open spec fn refreshed(
    s: Seq<(Seq<char>, Seq<char>)>,
    i: int,
    content: Seq<char>,
) -> Seq<(Seq<char>, Seq<char>)> {
    if changes(s[i].1, content) {
        s.update(i, (s[i].0, sha1_hex(content)))
    } else {
        s
    }
}

/// The entries after a fetch for entry `i`: a failed fetch changes nothing.
pub open spec fn after_fetch(
    s: Seq<(Seq<char>, Seq<char>)>,
    i: int,
    fetched: Option<Seq<char>>,
) -> Seq<(Seq<char>, Seq<char>)> {
    match fetched {
        Some(c) => refreshed(s, i, c),
        None => s,
    }
}

/// Whether the addresses of the entries are pairwise distinct.
pub open spec fn distinct_urls(s: Seq<(Seq<char>, Seq<char>)>) -> bool {
    forall|i: int, j: int| 0 <= i < j < s.len() ==> s[i].0 != s[j].0
}

/// Whether `u` is the address of one of the entries.
pub open spec fn has_url(s: Seq<(Seq<char>, Seq<char>)>, u: Seq<char>) -> bool {
    exists|i: int| 0 <= i < s.len() && s[i].0 == u
}

/// Whether `u` is one of the first `n` of the given addresses.
pub open spec fn listed_before(urls: Seq<String>, n: int, u: Seq<char>) -> bool {
    exists|j: int| 0 <= j < n && #[trigger] urls[j]@ == u
}

/// Whether `u` is one of the given addresses.
pub open spec fn listed(urls: Seq<String>, u: Seq<char>) -> bool {
    listed_before(urls, urls.len() as int, u)
}

impl View for MonitorState {
    type V = Seq<(Seq<char>, Seq<char>)>;

    closed spec fn view(&self) -> Seq<(Seq<char>, Seq<char>)> {
        self.entries@.map_values(|e: Entry| e@)
    }
}

impl MonitorState {
    /// The entries have distinct addresses.
    pub open spec fn wf(&self) -> bool {
        distinct_urls(self@)
    }

    /// Number of watched pages.
    pub fn len(&self) -> (r: usize)
        ensures
            r == self@.len(),
    {
        self.entries.len()
    }

    /// The entries, in the order in which their addresses were first listed.
    pub fn entries(&self) -> (r: &Vec<Entry>)
        ensures
            r@.map_values(|e: Entry| e@) == self@,
    {
        &self.entries
    }

    /// The address of entry `i`.
    pub fn url(&self, i: usize) -> (r: &String)
        requires
            i < self@.len(),
        ensures
            r@ == self@[i as int].0,
    {
        &self.entries[i].url
    }

    /// The stored fingerprint of entry `i`.
    pub fn fingerprint(&self, i: usize) -> (r: &String)
        requires
            i < self@.len(),
        ensures
            r@ == self@[i as int].1,
    {
        &self.entries[i].fingerprint
    }

    /// The index of the entry for `url`, if there is one.
    pub fn position(&self, url: &String) -> (r: Option<usize>)
        ensures
            match r {
                Some(i) => i < self@.len() && self@[i as int].0 == url@,
                None => !has_url(self@, url@),
            },
    {
        let mut k: usize = 0;
        while k < self.entries.len()
            invariant
                k <= self.entries@.len(),
                forall|m: int| 0 <= m < k ==> self@[m].0 != url@,
            decreases self.entries@.len() - k,
        {
            if self.entries[k].url == *url {
                return Some(k);
            }
            k = k + 1;
        }
        None
    }

    /// Checks entry `i` against what a fetch of its page delivered. On a failed
    /// fetch nothing changes. Otherwise the content's digest is compared with the
    /// stored fingerprint; a different digest is stored and reported.
    pub fn check(&mut self, i: usize, fetched: Result<String, FetchError>) -> (r: Outcome)
        requires
            i < old(self)@.len(),
            old(self).wf(),
        ensures
            final(self).wf(),
            final(self)@ == after_fetch(old(self)@, i as int, fetched_content(fetched)),
            match r {
                Outcome::Unchanged => {
                    &&& fetched is Ok
                    &&& !changes(old(self)@[i as int].1, fetched_content(fetched)->Some_0)
                },
                Outcome::Changed(f) => {
                    &&& fetched is Ok
                    &&& changes(old(self)@[i as int].1, fetched_content(fetched)->Some_0)
                    &&& f@ == sha1_hex(fetched_content(fetched)->Some_0)
                },
                Outcome::FetchFailed(e) => fetched == Err::<String, FetchError>(e),
            },
            fetched is Ok && old(self)@[i as int].1.len() == 0 ==> r is Changed,
    {
        match fetched {
            Err(e) => Outcome::FetchFailed(e),
            Ok(content) => {
                match compare(content.as_str(), &self.entries[i].fingerprint) {
                    None => Outcome::Unchanged,
                    Some(h) => {
                        let ghost before = self@;
                        let url = self.entries[i].url.clone();
                        self.entries.set(i, Entry { url, fingerprint: h.clone() });
                        assert(self@ =~= before.update(i as int, (before[i as int].0, h@)));
                        Outcome::Changed(h)
                    },
                }
            },
        }
    }
}

/// A state with one entry, with an empty fingerprint, for each distinct address
/// in `urls`.
pub fn hash_list(urls: &Vec<String>) -> (r: MonitorState)
    ensures
        r.wf(),
        r@.len() <= urls@.len(),
        forall|u: Seq<char>| has_url(r@, u) <==> listed(urls@, u),
        forall|i: int| 0 <= i < r@.len() ==> r@[i].1 == Seq::<char>::empty(),
{
    let mut list = MonitorState { entries: Vec::new() };
    let mut j: usize = 0;
    while j < urls.len()
        invariant
            j <= urls@.len(),
            list.wf(),
            list@.len() <= j,
            forall|u: Seq<char>| has_url(list@, u) <==> listed_before(urls@, j as int, u),
            forall|i: int| 0 <= i < list@.len() ==> list@[i].1 == Seq::<char>::empty(),
        decreases urls@.len() - j,
    {
        let ghost before = list@;
        assert(forall|u: Seq<char>| has_url(before, u) <==> listed_before(urls@, j as int, u));
        let found = list.position(&urls[j]);
        if found.is_none() {
            list.entries.push(Entry { url: urls[j].clone(), fingerprint: String::new() });
            assert(list@ =~= before.push((urls@[j as int]@, Seq::<char>::empty())));
        }
        assert forall|u: Seq<char>| has_url(list@, u) <==> listed_before(urls@, j + 1, u) by {
            if listed_before(urls@, j + 1, u) {
                if u == urls@[j as int]@ {
                    match found {
                        Some(p) => assert(list@[p as int].0 == u),
                        None => assert(list@[list@.len() - 1].0 == u),
                    }
                } else {
                    let w = choose|m: int| 0 <= m < j + 1 && #[trigger] urls@[m]@ == u;
                    assert(listed_before(urls@, j as int, u));
                    assert(has_url(before, u));
                    let v = choose|m: int| 0 <= m < before.len() && before[m].0 == u;
                    assert(list@[v].0 == u);
                }
            }
            if has_url(list@, u) {
                if u == urls@[j as int]@ {
                    assert(urls@[j as int]@ == u);
                } else {
                    let w = choose|m: int| 0 <= m < list@.len() && list@[m].0 == u;
                    if found is None {
                        assert(w < before.len());
                        assert(before[w].0 == u);
                    }
                    assert(has_url(before, u));
                    let v = choose|m: int| 0 <= m < j && #[trigger] urls@[m]@ == u;
                    assert(urls@[v]@ == u);
                }
            }
        }
        j = j + 1;
    }
    list
}

/// Compares a freshly computed digest with the stored fingerprint: `None` when
/// they are equal, else the new digest.
pub fn compare_digest(new_hash: String, hash: &String) -> (r: Option<String>)
    ensures
        r == (if new_hash@ == hash@ {
            None
        } else {
            Some(new_hash)
        }),
{
    if new_hash == *hash {
        None
    } else {
        Some(new_hash)
    }
}

/// Compares the digest of freshly read content with the stored fingerprint:
/// `None` when the page is unchanged, else its new fingerprint.
pub fn compare(new_contents: &str, hash: &String) -> (r: Option<String>)
    ensures
        r is None <==> !changes(hash@, new_contents@),
        r matches Some(h) ==> h@ == sha1_hex(new_contents@),
        hash@.len() == 0 ==> r is Some,
{
    let new_hash = digest(new_contents);
    compare_digest(new_hash, hash)
}

/// Two consecutive checks that read the same content: the second finds the page
/// unchanged and leaves the entries exactly as the first left them.
pub proof fn lemma_same_content_unchanged(
    s: Seq<(Seq<char>, Seq<char>)>,
    i: int,
    content: Seq<char>,
)
    requires
        0 <= i < s.len(),
    ensures
        !changes(after_fetch(s, i, Some(content))[i].1, content),
        after_fetch(after_fetch(s, i, Some(content)), i, Some(content)) == after_fetch(
            s,
            i,
            Some(content),
        ),
{
}

/// Two consecutive checks that read contents with different digests: the second
/// reports a change, and its only effect is to store the new digest in entry `i`.
pub proof fn lemma_new_content_changed(
    s: Seq<(Seq<char>, Seq<char>)>,
    i: int,
    first: Seq<char>,
    second: Seq<char>,
)
    requires
        0 <= i < s.len(),
        sha1_hex(first) != sha1_hex(second),
    ensures
        changes(after_fetch(s, i, Some(first))[i].1, second),
        after_fetch(after_fetch(s, i, Some(first)), i, Some(second)) == after_fetch(
            s,
            i,
            Some(first),
        ).update(i, (s[i].0, sha1_hex(second))),
{
}

/// A failed fetch leaves every stored fingerprint as it was.
pub proof fn lemma_fetch_failure_keeps_state(s: Seq<(Seq<char>, Seq<char>)>, i: int)
    requires
        0 <= i < s.len(),
    ensures
        after_fetch(s, i, None) == s,
{
}

} // verus!
