use vstd::prelude::*;
use crate::article::ArtikelListe;
use crate::article::ArtikelView;
use crate::json::e_parse_document;
use crate::json::sp_parse_document;
use crate::search::SearchMode;
use crate::search::sp_search;
use crate::text::sanitize;
use crate::text::sp_sanitize;

verus! {

/// The raw text a reload's read step produced, or `None` when the read
/// itself failed.
pub open spec fn sp_doc_view(doc: Option<&str>) -> Option<Seq<char>> {
    match doc {
        Some(d) => Some(d@),
        None => None,
    }
}

/// What one reload cycle makes of the current catalog: a document that
/// sanitizes and parses replaces the catalog as a whole; a failed read or a
/// malformed document leaves it untouched.
pub open spec fn sp_reload(current: Seq<ArtikelView>, doc: Option<Seq<char>>) -> Seq<ArtikelView> {
    match doc {
        Some(d) => match sp_parse_document(sp_sanitize(d)) {
            Some(cat) => cat,
            None => current,
        },
        None => current,
    }
}

/// The owner of the one current catalog. Every query reads through
/// `current`, every reload goes through `reload` or `replace`: the catalog
/// is only ever swapped as a whole, never edited in place.
pub struct CatalogStore {
    current: ArtikelListe,
}

impl View for CatalogStore {
    type V = Seq<ArtikelView>;

    closed spec fn view(&self) -> Seq<ArtikelView> {
        self.current@
    }
}

impl CatalogStore {
    /// A fresh store: queryable at once, with the empty catalog.
    pub fn new() -> (s: CatalogStore)
        ensures
            s@ == Seq::<ArtikelView>::empty(),
    {
        CatalogStore { current: ArtikelListe::default() }
    }

    /// The current catalog, for a query to scan.
    pub fn current(&self) -> (c: &ArtikelListe)
        ensures
            c@ == self@,
    {
        &self.current
    }

    /// Swap in a new catalog as a whole.
    pub fn replace(&mut self, new_catalog: ArtikelListe)
        ensures
            final (self)@ == new_catalog@,
    {
        self.current = new_catalog;
    }

    /// One reload cycle, applied to what the read step produced: sanitize
    /// the raw text, parse it, and install the catalog it denotes; on a
    /// failed read (`None`) or a malformed document keep the current catalog
    /// unchanged. Says whether a new catalog was installed.
    pub fn reload(&mut self, doc: Option<&str>) -> (installed: bool)
        ensures
            final (self)@ == sp_reload(old(self)@, sp_doc_view(doc)),
            installed == match sp_doc_view(doc) {
                Some(d) => sp_parse_document(sp_sanitize(d)) is Some,
                None => false,
            },
    {
        match doc {
            Some(d) => {
                let clean = sanitize(d);
                match e_parse_document(&clean) {
                    Some(liste) => {
                        self.current = liste;
                        true
                    },
                    None => false,
                }
            },
            None => false,
        }
    }
}

/// The reload schedule policy: a requested interval is accepted between 5
/// seconds and 10 minutes and cut to that range otherwise; without a
/// request the loop runs once a minute.
pub fn reload_interval_secs(requested: Option<u64>) -> (r: u64)
    ensures
        5 <= r <= 600,
        match requested {
            Some(v) => r == if v < 5 {
                5u64
            } else if v > 600 {
                600u64
            } else {
                v
            },
            None => r == 60,
        },
{
    match requested {
        Some(v) => {
            if v < 5 {
                5
            } else if v > 600 {
                600
            } else {
                v
            }
        },
        None => 60,
    }
}

/// Reload idempotence: installing the same document twice in a row is the
/// same as installing it once, so every later query answers identically.
pub proof fn lemma_reload_idempotent(current: Seq<ArtikelView>, d: Seq<char>)
    ensures
        sp_reload(sp_reload(current, Some(d)), Some(d)) == sp_reload(current, Some(d)),
        forall|q: Seq<char>, mode: SearchMode|
            #[trigger] sp_search(sp_reload(sp_reload(current, Some(d)), Some(d)), q, mode)
                == sp_search(sp_reload(current, Some(d)), q, mode),
{
}

/// Reload resilience: a reload that reads a malformed document, or nothing,
/// changes the catalog not at all — a query right after answers exactly as
/// one right before.
pub proof fn lemma_reload_resilient(current: Seq<ArtikelView>, doc: Option<Seq<char>>)
    requires
        match doc {
            Some(d) => sp_parse_document(sp_sanitize(d)) is None,
            None => true,
        },
    ensures
        sp_reload(current, doc) == current,
        forall|q: Seq<char>, mode: SearchMode|
            #[trigger] sp_search(sp_reload(current, doc), q, mode) == sp_search(current, q, mode),
{
}

} // verus!
