//! Where the signatures of an image are published.
//!
//! A signature store is configured by namespace: each entry gives the base
//! URL for the images whose name starts with its prefix, the entry with the
//! empty prefix being the default. The longest prefix that covers an image
//! wins.

use crate::error::ConfigError;
use crate::image::digest::{Digest, DigestView};
use crate::image::reference::{Reference, ReferenceView};
use crate::select::pick_longest;
use crate::text::{is_prefix, lemma_prefixes_of_same, starts_with, str_eq, to_chars};
use vstd::prelude::*;
use vstd::string::*;

verus! {

/// Directory that holds the fragments of the signature-store configuration.
pub const SIGSTORE_CONFIG_DIR: &'static str = "/run/image-security/simple_signing/sigstore_config";

/// One namespace of the signature-store configuration.
#[derive(Clone, Debug, PartialEq, Eq)]
pub struct SigstoreEntry {
    /// Start of the image names that the entry covers; empty for the default.
    pub namespace_prefix: String,
    /// Base URL under which the signatures of those images are published.
    pub base_url: String,
}

/// The mathematical value of a [`SigstoreEntry`].
pub struct SigstoreEntryView {
    pub namespace_prefix: Seq<char>,
    pub base_url: Seq<char>,
}

impl View for SigstoreEntry {
    type V = SigstoreEntryView;

    open spec fn view(&self) -> SigstoreEntryView {
        SigstoreEntryView { namespace_prefix: self.namespace_prefix@, base_url: self.base_url@ }
    }
}

/// The signature-store configuration: its namespaces, in the order in which
/// they were read.
#[derive(Clone, Debug, PartialEq, Eq)]
pub struct SigstoreConfig {
    pub entries: Vec<SigstoreEntry>,
}

impl View for SigstoreConfig {
    type V = Seq<SigstoreEntryView>;

    open spec fn view(&self) -> Seq<SigstoreEntryView> {
        self.entries@.map_values(|e: SigstoreEntry| e@)
    }
}

/// No two entries speak of the same namespace.
pub open spec fn distinct_namespaces(entries: Seq<SigstoreEntryView>) -> bool {
    forall|i: int, j: int|
        0 <= i < entries.len() && 0 <= j < entries.len() && i != j ==> (
        #[trigger] entries[i]).namespace_prefix != (#[trigger] entries[j]).namespace_prefix
}

/// Entry `i` covers an image called `name`.
pub open spec fn covers(entries: Seq<SigstoreEntryView>, name: Seq<char>, i: int) -> bool {
    0 <= i < entries.len() && is_prefix(entries[i].namespace_prefix, name)
}

/// Entry `i` is the one that the image called `name` resolves to: it covers
/// the image, no covering entry has a longer prefix, and none with a prefix
/// of the same length stands before it.
pub open spec fn resolves_to(entries: Seq<SigstoreEntryView>, name: Seq<char>, i: int) -> bool {
    &&& covers(entries, name, i)
    &&& forall|j: int| #[trigger]
        covers(entries, name, j) ==> entries[j].namespace_prefix.len()
            <= entries[i].namespace_prefix.len()
    &&& forall|j: int|
        j < i && #[trigger] covers(entries, name, j) ==> entries[j].namespace_prefix.len()
            < entries[i].namespace_prefix.len()
}

/// The entry that an image called `name` resolves to, if any covers it.
pub open spec fn resolved_entry(entries: Seq<SigstoreEntryView>, name: Seq<char>) -> Option<int> {
    if exists|i: int| resolves_to(entries, name, i) {
        Some(choose|i: int| resolves_to(entries, name, i))
    } else {
        None
    }
}

/// The base URL of the store for an image called `name`.
pub open spec fn resolved_base_url(entries: Seq<SigstoreEntryView>, name: Seq<char>) -> Option<
    Seq<char>,
> {
    match resolved_entry(entries, name) {
        Some(i) => Some(entries[i].base_url),
        None => None,
    }
}

/// Index of the first entry for the namespace `prefix`.
pub open spec fn position(entries: Seq<SigstoreEntryView>, prefix: Seq<char>) -> Option<int>
    decreases entries.len(),
{
    if entries.len() == 0 {
        None
    } else {
        match position(entries.drop_last(), prefix) {
            Some(i) => Some(i),
            None => if entries.last().namespace_prefix == prefix {
                Some(entries.len() - 1)
            } else {
                None
            },
        }
    }
}

/// `entries` with `entry` taken in: added at the end where its namespace is
/// new, dropped where the namespace is there with the same store, and
/// refused (`None`) where the namespace is there with another store.
pub open spec fn merge_one(entries: Seq<SigstoreEntryView>, entry: SigstoreEntryView) -> Option<
    Seq<SigstoreEntryView>,
> {
    match position(entries, entry.namespace_prefix) {
        Some(i) => if entries[i].base_url == entry.base_url {
            Some(entries)
        } else {
            None
        },
        None => Some(entries.push(entry)),
    }
}

/// `entries` with every entry of `more` taken in, one after the other.
pub open spec fn merge_all(entries: Seq<SigstoreEntryView>, more: Seq<SigstoreEntryView>) -> Option<
    Seq<SigstoreEntryView>,
>
    decreases more.len(),
{
    if more.len() == 0 {
        Some(entries)
    } else {
        match merge_all(entries, more.drop_last()) {
            Some(merged) => merge_one(merged, more.last()),
            None => None,
        }
    }
}

/// All `fragments` merged into one configuration, in order.
pub open spec fn merge_fragments(fragments: Seq<Seq<SigstoreEntryView>>) -> Option<
    Seq<SigstoreEntryView>,
>
    decreases fragments.len(),
{
    if fragments.len() == 0 {
        Some(Seq::empty())
    } else {
        match merge_fragments(fragments.drop_last()) {
            Some(merged) => merge_all(merged, fragments.last()),
            None => None,
        }
    }
}

/// The name under which the signatures of an image are filed in a store:
/// `repository@algorithm=hex`.
pub open spec fn sigstore_name(reference: ReferenceView, digest: DigestView) -> Seq<char> {
    reference.repository + seq!['@'] + digest.algorithm + seq!['='] + digest.value
}

/// What [`position`] finds.
pub proof fn lemma_position(entries: Seq<SigstoreEntryView>, prefix: Seq<char>)
    ensures
        match position(entries, prefix) {
            Some(i) => 0 <= i < entries.len() && entries[i].namespace_prefix == prefix
                && forall|j: int| 0 <= j < i ==> (#[trigger] entries[j]).namespace_prefix != prefix,
            None => forall|j: int|
                0 <= j < entries.len() ==> (#[trigger] entries[j]).namespace_prefix != prefix,
        },
    decreases entries.len(),
{
    if entries.len() > 0 {
        let front = entries.drop_last();
        lemma_position(front, prefix);
        assert(forall|j: int| 0 <= j < front.len() ==> front[j] == entries[j]);
    }
}

/// Taking an entry in keeps the namespaces distinct.
pub proof fn lemma_merge_one_distinct(entries: Seq<SigstoreEntryView>, entry: SigstoreEntryView)
    requires
        distinct_namespaces(entries),
    ensures
        merge_one(entries, entry) matches Some(merged) ==> distinct_namespaces(merged),
{
    lemma_position(entries, entry.namespace_prefix);
}

/// Merging keeps the namespaces distinct.
pub proof fn lemma_merge_all_distinct(entries: Seq<SigstoreEntryView>, more: Seq<SigstoreEntryView>)
    requires
        distinct_namespaces(entries),
    ensures
        merge_all(entries, more) matches Some(merged) ==> distinct_namespaces(merged),
    decreases more.len(),
{
    if more.len() > 0 {
        lemma_merge_all_distinct(entries, more.drop_last());
        match merge_all(entries, more.drop_last()) {
            Some(merged) => lemma_merge_one_distinct(merged, more.last()),
            None => {},
        }
    }
}

/// A configuration merged from fragments never holds a namespace twice.
pub proof fn lemma_merge_fragments_distinct(fragments: Seq<Seq<SigstoreEntryView>>)
    ensures
        merge_fragments(fragments) matches Some(merged) ==> distinct_namespaces(merged),
    decreases fragments.len(),
{
    if fragments.len() > 0 {
        lemma_merge_fragments_distinct(fragments.drop_last());
        match merge_fragments(fragments.drop_last()) {
            Some(merged) => lemma_merge_all_distinct(merged, fragments.last()),
            None => {},
        }
    }
}

/// Longest prefix wins, whatever the order of the entries: where the
/// namespaces are distinct, a covering entry that no covering entry
/// outgrows is the one that the image resolves to.
pub proof fn lemma_longest_prefix_wins(entries: Seq<SigstoreEntryView>, name: Seq<char>, i: int)
    requires
        distinct_namespaces(entries),
        covers(entries, name, i),
        forall|j: int| #[trigger]
            covers(entries, name, j) ==> entries[j].namespace_prefix.len()
                <= entries[i].namespace_prefix.len(),
    ensures
        resolves_to(entries, name, i),
{
    assert forall|j: int| j < i && #[trigger] covers(entries, name, j) implies entries[j].namespace_prefix.len()
        < entries[i].namespace_prefix.len() by {
        if entries[j].namespace_prefix.len() == entries[i].namespace_prefix.len() {
            lemma_prefixes_of_same(entries[j].namespace_prefix, entries[i].namespace_prefix, name);
        }
    }
}

/// An image resolves to at most one entry.
pub proof fn lemma_resolution_unique(
    entries: Seq<SigstoreEntryView>,
    name: Seq<char>,
    i: int,
    j: int,
)
    requires
        resolves_to(entries, name, i),
        resolves_to(entries, name, j),
    ensures
        i == j,
{
    if i < j {
        assert(covers(entries, name, i));
    } else if j < i {
        assert(covers(entries, name, j));
    }
}

impl SigstoreEntry {
    /// A second entry of the same value.
    pub fn duplicate(&self) -> (e: SigstoreEntry)
        ensures
            e == *self,
    {
        SigstoreEntry {
            namespace_prefix: self.namespace_prefix.clone(),
            base_url: self.base_url.clone(),
        }
    }
}

impl SigstoreConfig {
    /// A configuration without any namespace.
    pub fn new() -> (config: SigstoreConfig)
        ensures
            config@ == Seq::<SigstoreEntryView>::empty(),
    {
        let config = SigstoreConfig { entries: Vec::new() };
        assert(config@ =~= Seq::<SigstoreEntryView>::empty());
        config
    }

    /// Index of the first entry for the namespace `prefix`.
    pub fn find(&self, prefix: &str) -> (at: Option<usize>)
        ensures
            match at {
                Some(i) => position(self@, prefix@) == Some(i as int),
                None => position(self@, prefix@) is None,
            },
    {
        let mut k: usize = 0;
        while k < self.entries.len()
            invariant
                k <= self.entries.len(),
                position(self@.take(k as int), prefix@) is None,
            decreases self.entries.len() - k,
        {
            let ghost next = self@.take(k + 1);
            assert(next.drop_last() =~= self@.take(k as int));
            assert(next.last() == self.entries@[k as int]@);
            if str_eq(self.entries[k].namespace_prefix.as_str(), prefix) {
                proof {
                    lemma_found_stays(self@, prefix@, k as int, self@.len() as int);
                    assert(self@.take(self@.len() as int) =~= self@);
                }
                return Some(k);
            }
            k += 1;
        }
        assert(self@.take(k as int) =~= self@);
        None
    }

    /// This configuration with the entries of `other` taken in.
    pub fn merged(&self, other: &SigstoreConfig) -> (r: Result<SigstoreConfig, ConfigError>)
        ensures
            match r {
                Ok(m) => merge_all(self@, other@) == Some(m@),
                Err(e) => e == ConfigError::ConflictingSigstore && merge_all(self@, other@) is None,
            },
    {
        let mut acc = SigstoreConfig { entries: Vec::new() };
        let mut k: usize = 0;
        while k < self.entries.len()
            invariant
                k <= self.entries.len(),
                acc@ == self@.take(k as int),
            decreases self.entries.len() - k,
        {
            let ghost before = acc@;
            acc.entries.push(self.entries[k].duplicate());
            assert(acc@ =~= before.push(self@[k as int]));
            assert(acc@ =~= self@.take(k + 1));
            k += 1;
        }
        assert(self@.take(k as int) =~= self@);
        let mut n: usize = 0;
        while n < other.entries.len()
            invariant
                n <= other.entries.len(),
                merge_all(self@, other@.take(n as int)) == Some(acc@),
            decreases other.entries.len() - n,
        {
            let entry = &other.entries[n];
            let ghost next = other@.take(n + 1);
            assert(next.drop_last() =~= other@.take(n as int));
            assert(next.last() == entry@);
            match acc.find(entry.namespace_prefix.as_str()) {
                Some(i) => {
                    proof {
                        lemma_position(acc@, entry@.namespace_prefix);
                    }
                    if !str_eq(acc.entries[i].base_url.as_str(), entry.base_url.as_str()) {
                        proof {
                            lemma_merge_all_refused(self@, other@, n + 1);
                        }
                        return Err(ConfigError::ConflictingSigstore);
                    }
                },
                None => {
                    let ghost before = acc@;
                    acc.entries.push(entry.duplicate());
                    assert(acc@ =~= before.push(entry@));
                },
            }
            n += 1;
        }
        assert(other@.take(n as int) =~= other@);
        Ok(acc)
    }

    /// Merges the fragments of a configuration directory, in the order given.
    pub fn new_from_configs(fragments: &Vec<SigstoreConfig>) -> (r: Result<
        SigstoreConfig,
        ConfigError,
    >)
        ensures
            match r {
                Ok(m) => merge_fragments(fragments@.map_values(|f: SigstoreConfig| f@)) == Some(m@)
                    && distinct_namespaces(m@),
                Err(e) => e == ConfigError::ConflictingSigstore && merge_fragments(
                    fragments@.map_values(|f: SigstoreConfig| f@),
                ) is None,
            },
    {
        let ghost all = fragments@.map_values(|f: SigstoreConfig| f@);
        let mut acc = SigstoreConfig::new();
        let mut k: usize = 0;
        while k < fragments.len()
            invariant
                k <= fragments.len(),
                all == fragments@.map_values(|f: SigstoreConfig| f@),
                merge_fragments(all.take(k as int)) == Some(acc@),
            decreases fragments.len() - k,
        {
            let ghost next = all.take(k + 1);
            assert(next.drop_last() =~= all.take(k as int));
            assert(next.last() == fragments@[k as int]@);
            match acc.merged(&fragments[k]) {
                Ok(m) => {
                    acc = m;
                },
                Err(e) => {
                    proof {
                        lemma_merge_fragments_refused(all, k + 1);
                    }
                    return Err(e);
                },
            }
            k += 1;
        }
        assert(all.take(k as int) =~= all);
        proof {
            lemma_merge_fragments_distinct(all);
        }
        Ok(acc)
    }

    /// Index of the entry that an image called `name` resolves to.
    pub fn resolve(&self, name: &str) -> (at: Option<usize>)
        ensures
            match at {
                Some(i) => resolves_to(self@, name@, i as int) && resolved_entry(self@, name@)
                    == Some(i as int),
                None => resolved_entry(self@, name@) is None && forall|j: int|
                    !covers(self@, name@, j),
            },
    {
        let target = to_chars(name);
        let mut candidates: Vec<Option<usize>> = Vec::new();
        let mut k: usize = 0;
        while k < self.entries.len()
            invariant
                k <= self.entries.len(),
                candidates.len() == k,
                target@ == name@,
                forall|j: int|
                    0 <= j < k ==> (#[trigger] candidates@[j]) == (if covers(self@, name@, j) {
                        Some(self@[j].namespace_prefix.len() as usize)
                    } else {
                        None
                    }),
                forall|j: int|
                    0 <= j < k && covers(self@, name@, j) ==> (
                    #[trigger] self@[j]).namespace_prefix.len() <= usize::MAX,
            decreases self.entries.len() - k,
        {
            let prefix = to_chars(self.entries[k].namespace_prefix.as_str());
            assert(prefix@ == self@[k as int].namespace_prefix);
            if starts_with(&target, &prefix) {
                candidates.push(Some(prefix.len()));
            } else {
                candidates.push(None);
            }
            k += 1;
        }
        let winner = pick_longest(&candidates);
        proof {
            match winner {
                Some(i) => {
                    assert(candidates@[i as int] is Some);
                    assert(covers(self@, name@, i as int));
                    assert forall|j: int| #[trigger] covers(self@, name@, j) implies self@[j].namespace_prefix.len()
                        <= self@[i as int].namespace_prefix.len() by {
                        assert(candidates@[j] is Some);
                    }
                    assert forall|j: int| j < i && #[trigger] covers(self@, name@, j) implies self@[j].namespace_prefix.len()
                        < self@[i as int].namespace_prefix.len() by {
                        assert(candidates@[j] is Some);
                    }
                    assert(resolves_to(self@, name@, i as int));
                    lemma_resolution_unique(
                        self@,
                        name@,
                        i as int,
                        choose|j: int| resolves_to(self@, name@, j),
                    );
                },
                None => {
                    assert forall|j: int| !covers(self@, name@, j) by {
                        if 0 <= j < self@.len() {
                            assert(candidates@[j] is None);
                        }
                    }
                },
            }
        }
        winner
    }

    /// The base URL of the store that holds the signatures of `reference`:
    /// that of the entry with the longest prefix of the image's name.
    pub fn base_url(&self, reference: &Reference) -> (url: Option<String>)
        ensures
            match url {
                Some(u) => resolved_base_url(self@, reference@.name()) == Some(u@),
                None => resolved_base_url(self@, reference@.name()) is None,
            },
    {
        let name = reference.name();
        match self.resolve(name.as_str()) {
            Some(i) => {
                assert(self@[i as int] == self.entries@[i as int]@);
                Some(self.entries[i].base_url.clone())
            },
            None => None,
        }
    }
}

/// Once an entry for a namespace is found among the first `k + 1` entries, it
/// is the one found among any more.
pub proof fn lemma_found_stays(entries: Seq<SigstoreEntryView>, prefix: Seq<char>, k: int, n: int)
    requires
        0 <= k < n <= entries.len(),
        position(entries.take(k), prefix) is None,
        entries[k].namespace_prefix == prefix,
    ensures
        position(entries.take(n), prefix) == Some(k),
    decreases n - k,
{
    let upto = entries.take(n);
    assert(upto.drop_last() =~= entries.take(n - 1));
    if n == k + 1 {
        assert(upto.last() == entries[k]);
    } else {
        lemma_found_stays(entries, prefix, k, n - 1);
    }
}

/// A merge that is refused part of the way is refused as a whole.
pub proof fn lemma_merge_all_refused(
    entries: Seq<SigstoreEntryView>,
    more: Seq<SigstoreEntryView>,
    n: int,
)
    requires
        0 <= n <= more.len(),
        merge_all(entries, more.take(n)) is None,
    ensures
        merge_all(entries, more) is None,
    decreases more.len() - n,
{
    if n < more.len() {
        assert(more.take(n + 1).drop_last() =~= more.take(n));
        lemma_merge_all_refused(entries, more, n + 1);
    } else {
        assert(more.take(n) =~= more);
    }
}

/// Fragments that cannot be merged part of the way cannot be merged at all.
pub proof fn lemma_merge_fragments_refused(fragments: Seq<Seq<SigstoreEntryView>>, n: int)
    requires
        0 <= n <= fragments.len(),
        merge_fragments(fragments.take(n)) is None,
    ensures
        merge_fragments(fragments) is None,
    decreases fragments.len() - n,
{
    if n < fragments.len() {
        assert(fragments.take(n + 1).drop_last() =~= fragments.take(n));
        lemma_merge_fragments_refused(fragments, n + 1);
    } else {
        assert(fragments.take(n) =~= fragments);
    }
}

/// A URL, as far as the signature store is concerned.
#[derive(Clone, Debug, PartialEq, Eq)]
pub struct StoreUrl {
    /// The scheme, without the colon.
    pub scheme: String,
    /// The path.
    pub path: String,
    /// The whole URL, as its parser writes it.
    pub href: String,
}

/// The mathematical value of a [`StoreUrl`].
pub struct StoreUrlView {
    pub scheme: Seq<char>,
    pub path: Seq<char>,
    pub href: Seq<char>,
}

impl View for StoreUrl {
    type V = StoreUrlView;

    open spec fn view(&self) -> StoreUrlView {
        StoreUrlView { scheme: self.scheme@, path: self.path@, href: self.href@ }
    }
}

/// The view of an optional URL.
pub open spec fn url_view(url: Option<StoreUrl>) -> Option<StoreUrlView> {
    match url {
        Some(u) => Some(u@),
        None => None,
    }
}

/// Declares the error of the `url` crate's parser, so that it can be carried
/// out of the call.
#[verifier::external_type_specification]
#[verifier::external_body]
pub struct ExUrlParseError(url::ParseError);

/// What the `url` crate's parser makes of `text`: scheme, path and
/// serialization of the URL, or `None` where it refuses the text.
pub uninterp spec fn parsed_url(text: Seq<char>) -> Option<StoreUrlView>;

/// Calls `url::Url::parse` and moves what `Url::scheme`, `Url::path` and
/// `Url::as_str` give for the parsed URL into a [`StoreUrl`]. The contract
/// only names the parser's result: it says nothing of which texts parse, nor
/// into what.
#[verifier::external_body]
fn parse_with_url(text: &str) -> (r: Result<StoreUrl, url::ParseError>)
    ensures
        match r {
            Ok(u) => parsed_url(text@) == Some(u@),
            Err(_) => parsed_url(text@) is None,
        },
{
    let parsed = url::Url::parse(text)?;
    Ok(
        StoreUrl {
            scheme: parsed.scheme().to_string(),
            path: parsed.path().to_string(),
            href: parsed.as_str().to_string(),
        },
    )
}

/// Where the signatures of one image are to be looked for.
#[derive(Clone, Debug, PartialEq, Eq)]
pub enum SigstoreLocation {
    /// A directory of the local file system.
    Directory { path: String },
    /// A directory of a web server.
    Web { url: String },
}

/// The mathematical value of a [`SigstoreLocation`].
pub enum LocationView {
    Directory { path: Seq<char> },
    Web { url: Seq<char> },
}

impl View for SigstoreLocation {
    type V = LocationView;

    open spec fn view(&self) -> LocationView {
        match *self {
            SigstoreLocation::Directory { path } => LocationView::Directory { path: path@ },
            SigstoreLocation::Web { url } => LocationView::Web { url: url@ },
        }
    }
}

/// The text of the URL under which the signatures filed as `name` stand in
/// the store at `base_url`.
pub open spec fn store_uri(base_url: Seq<char>, name: Seq<char>) -> Seq<char> {
    base_url + seq!['/'] + name
}

/// The store that a parsed URL points to: a local directory for the scheme
/// `file`, a web directory for `http` and `https`.
pub open spec fn location_of(url: Option<StoreUrlView>) -> Result<LocationView, ConfigError> {
    match url {
        None => Err(ConfigError::InvalidSigstoreUrl),
        Some(u) => if u.scheme == "file"@ {
            Ok(LocationView::Directory { path: u.path })
        } else if u.scheme == "http"@ || u.scheme == "https"@ {
            Ok(LocationView::Web { url: u.href })
        } else {
            Err(ConfigError::UnsupportedSigstoreScheme)
        },
    }
}

/// Where the signatures of an image are to be looked for, given the
/// configuration of the store, the image's reference and its digest.
pub open spec fn store_location(
    entries: Seq<SigstoreEntryView>,
    reference: ReferenceView,
    digest: DigestView,
) -> Result<LocationView, ConfigError> {
    match resolved_base_url(entries, reference.name()) {
        None => Err(ConfigError::NoSigstore),
        Some(base) => location_of(parsed_url(store_uri(base, sigstore_name(reference, digest)))),
    }
}

impl SigstoreLocation {
    /// A second location of the same value.
    pub fn duplicate(&self) -> (l: SigstoreLocation)
        ensures
            l == *self,
    {
        match self {
            SigstoreLocation::Directory { path } => SigstoreLocation::Directory {
                path: path.clone(),
            },
            SigstoreLocation::Web { url } => SigstoreLocation::Web { url: url.clone() },
        }
    }

    /// Decides whether two locations are the same.
    pub fn same_as(&self, other: &SigstoreLocation) -> (same: bool)
        ensures
            same == (self@ == other@),
    {
        match (self, other) {
            (
                SigstoreLocation::Directory { path: a },
                SigstoreLocation::Directory { path: b },
            ) => str_eq(a.as_str(), b.as_str()),
            (SigstoreLocation::Web { url: a }, SigstoreLocation::Web { url: b }) => str_eq(
                a.as_str(),
                b.as_str(),
            ),
            _ => false,
        }
    }

    /// The store that a parsed URL points to.
    pub fn from_url(url: Option<StoreUrl>) -> (r: Result<SigstoreLocation, ConfigError>)
        ensures
            match r {
                Ok(location) => location_of(url_view(url)) == Ok::<LocationView, ConfigError>(
                    location@,
                ),
                Err(e) => location_of(url_view(url)) == Err::<LocationView, ConfigError>(e),
            },
    {
        match url {
            None => Err(ConfigError::InvalidSigstoreUrl),
            Some(u) => {
                if str_eq(u.scheme.as_str(), "file") {
                    Ok(SigstoreLocation::Directory { path: u.path })
                } else if str_eq(u.scheme.as_str(), "http") || str_eq(u.scheme.as_str(), "https") {
                    Ok(SigstoreLocation::Web { url: u.href })
                } else {
                    Err(ConfigError::UnsupportedSigstoreScheme)
                }
            },
        }
    }
}

impl SigstoreConfig {
    /// Where the signatures of an image with the given reference and digest
    /// are to be looked for.
    pub fn locate(&self, reference: &Reference, digest: &Digest) -> (r: Result<
        SigstoreLocation,
        ConfigError,
    >)
        ensures
            match r {
                Ok(location) => store_location(self@, reference@, digest@) == Ok::<
                    LocationView,
                    ConfigError,
                >(location@),
                Err(e) => store_location(self@, reference@, digest@) == Err::<
                    LocationView,
                    ConfigError,
                >(e),
            },
    {
        let base = match self.base_url(reference) {
            Some(b) => b,
            None => {
                return Err(ConfigError::NoSigstore);
            },
        };
        proof {
            reveal_strlit("/");
        }
        let name = format_sigstore_name(reference, digest);
        let mut uri = base;
        uri.append("/");
        uri.append(name.as_str());
        assert(uri@ =~= store_uri(
            resolved_base_url(self@, reference@.name())->0,
            sigstore_name(reference@, digest@),
        ));
        let parsed = match parse_with_url(uri.as_str()) {
            Ok(u) => Some(u),
            Err(_) => None,
        };
        SigstoreLocation::from_url(parsed)
    }
}

/// The name under which the signatures of an image are filed in a store.
pub fn format_sigstore_name(reference: &Reference, digest: &Digest) -> (name: String)
    ensures
        name@ == sigstore_name(reference@, digest@),
{
    proof {
        reveal_strlit("@");
        reveal_strlit("=");
    }
    let mut name = reference.repository.clone();
    name.append("@");
    name.append(digest.algorithm.as_str());
    name.append("=");
    name.append(digest.value.as_str());
    assert(name@ =~= sigstore_name(reference@, digest@));
    name
}

} // verus!
