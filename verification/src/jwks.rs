//! Public keys of external issuers: the key set document, and the cache
//! that holds one key set per issuer for the life of the process.

use vstd::prelude::*;
use vstd::string::StringExecFns;
use crate::error::FetchFailure;
use crate::json::json_length;
use crate::json::json_length_at;
use crate::json::json_texts;
use crate::json::json_text_at;
use crate::text::decimal_unsigned;
use crate::text::digits;
use crate::text::opt_text;
use crate::text::same_text;

verus! {

/// An RSA public key as its issuer publishes it. Modulus and exponent are
/// big-endian integers in base64url.
#[derive(Debug, PartialEq, Eq)]
pub struct Jwk {
    pub kid: String,
    pub n: String,
    pub e: String,
}

/// A key as contracts speak of it.
pub struct JwkView {
    pub kid: Seq<char>,
    pub n: Seq<char>,
    pub e: Seq<char>,
}

impl View for Jwk {
    type V = JwkView;

    open spec fn view(&self) -> JwkView {
        JwkView { kid: self.kid@, n: self.n@, e: self.e@ }
    }
}

impl Jwk {
    /// A copy of the key.
    pub fn duplicate(&self) -> (copy: Jwk)
        ensures
            copy@ == self@,
    {
        Jwk { kid: self.kid.clone(), n: self.n.clone(), e: self.e.clone() }
    }
}

/// The keys of one issuer, in the order of its document.
#[derive(Debug, PartialEq, Eq)]
pub struct JwkSet {
    pub keys: Vec<Jwk>,
}

/// Position of the first key of `keys` whose id is `kid`.
pub open spec fn first_with_id(keys: Seq<JwkView>, kid: Seq<char>, at: int) -> bool {
    &&& 0 <= at < keys.len()
    &&& keys[at].kid == kid
    &&& forall|before: int| 0 <= before < at ==> (#[trigger] keys[before]).kid != kid
}

/// The first key of `keys` whose id is `kid`.
pub open spec fn spec_find(keys: Seq<JwkView>, kid: Seq<char>) -> Option<JwkView> {
    if exists|at: int| first_with_id(keys, kid, at) {
        Some(keys[choose|at: int| first_with_id(keys, kid, at)])
    } else {
        None
    }
}

/// `keys` has its first key with id `kid` at `at` and nowhere else.
pub proof fn lemma_first_with_id_unique(keys: Seq<JwkView>, kid: Seq<char>, at: int)
    requires
        first_with_id(keys, kid, at),
    ensures
        spec_find(keys, kid) == Some(keys[at]),
{
    let chosen = choose|at: int| first_with_id(keys, kid, at);
    assert(first_with_id(keys, kid, chosen));
    if chosen < at {
        assert(keys[chosen].kid != kid);
    } else if at < chosen {
        assert(keys[at].kid != kid);
    }
}

impl View for JwkSet {
    type V = Seq<JwkView>;

    open spec fn view(&self) -> Seq<JwkView> {
        Seq::new(self.keys@.len(), |at: int| self.keys@[at]@)
    }
}

impl JwkSet {
    /// The first key with the id `kid`.
    pub fn find(&self, kid: &str) -> (key: Option<&Jwk>)
        ensures
            match key {
                Some(found) => spec_find(self@, kid@) == Some(found@),
                None => spec_find(self@, kid@) is None,
            },
    {
        let n = self.keys.len();
        let mut at: usize = 0;
        while at < n
            invariant
                at <= n,
                n == self.keys@.len(),
                forall|before: int| 0 <= before < at ==> (#[trigger] self@[before]).kid != kid@,
            decreases n - at,
        {
            if same_text(self.keys[at].kid.as_str(), kid) {
                proof {
                    lemma_first_with_id_unique(self@, kid@, at as int);
                }
                return Some(&self.keys[at]);
            }
            at = at + 1;
        }
        None
    }

    /// A copy of the set, key by key.
    pub fn duplicate(&self) -> (copy: JwkSet)
        ensures
            copy@ == self@,
    {
        let n = self.keys.len();
        let mut keys: Vec<Jwk> = Vec::new();
        let mut at: usize = 0;
        while at < n
            invariant
                at <= n,
                n == self.keys@.len(),
                keys@.len() == at,
                forall|k: int| 0 <= k < at ==> (#[trigger] keys@[k])@ == self.keys@[k]@,
            decreases n - at,
        {
            keys.push(self.keys[at].duplicate());
            at = at + 1;
        }
        let copy = JwkSet { keys };
        copy
    }
}

/// One entry of a key set document as it was read: a member that is absent
/// or is not a text is `None`.
#[derive(Debug, PartialEq, Eq)]
pub struct RawJwk {
    pub kid: Option<String>,
    pub n: Option<String>,
    pub e: Option<String>,
}

/// An entry of a key set document as contracts speak of it.
pub struct RawJwkView {
    pub kid: Option<Seq<char>>,
    pub n: Option<Seq<char>>,
    pub e: Option<Seq<char>>,
}

impl View for RawJwk {
    type V = RawJwkView;

    open spec fn view(&self) -> RawJwkView {
        RawJwkView { kid: opt_text(self.kid), n: opt_text(self.n), e: opt_text(self.e) }
    }
}

/// The entries of a document, each by its view.
pub open spec fn raw_views(entries: Seq<RawJwk>) -> Seq<RawJwkView> {
    Seq::new(entries.len(), |at: int| entries[at]@)
}

/// Where a document lists its keys.
pub const KEYS_POINTER: &'static str = "/keys";

/// Pointer to the member `member` of the entry at `index`.
pub open spec fn spec_entry_pointer(index: nat, member: Seq<char>) -> Seq<char> {
    KEYS_POINTER@ + "/"@ + digits(index) + "/"@ + member
}

/// The entry at `index` of the document `body`, with its text members
/// `kid`, `n` and `e`.
pub open spec fn spec_entry(body: Seq<char>, index: nat) -> RawJwkView {
    RawJwkView {
        kid: json_text_at(body, spec_entry_pointer(index, "kid"@)),
        n: json_text_at(body, spec_entry_pointer(index, "n"@)),
        e: json_text_at(body, spec_entry_pointer(index, "e"@)),
    }
}

/// The entries under `keys` of the JSON document `body`; `None` when
/// `body` is not JSON or has no array under `keys`.
pub open spec fn spec_entries(body: Seq<char>) -> Option<Seq<RawJwkView>> {
    match json_length_at(body, KEYS_POINTER@) {
        None => None,
        Some(length) => Some(Seq::new(length as nat, |at: int| spec_entry(body, at as nat))),
    }
}

/// Pointer to the member `member` of the entry at `index`.
fn entry_pointer(index: usize, member: &str) -> (pointer: String)
    ensures
        pointer@ == spec_entry_pointer(index as nat, member@),
{
    let mut pointer = String::from_str(KEYS_POINTER);
    pointer.append("/");
    pointer.append(decimal_unsigned(index as u64).as_str());
    pointer.append("/");
    pointer.append(member);
    pointer
}

/// Pointers to the member `member` of the first `length` entries.
fn member_pointers(length: usize, member: &str) -> (pointers: Vec<String>)
    ensures
        pointers@.len() == length,
        forall|at: int|
            0 <= at < length ==> (#[trigger] pointers@[at])@ == spec_entry_pointer(
                at as nat,
                member@,
            ),
{
    let mut pointers: Vec<String> = Vec::new();
    let mut at: usize = 0;
    while at < length
        invariant
            at <= length,
            pointers@.len() == at,
            forall|k: int|
                0 <= k < at ==> (#[trigger] pointers@[k])@ == spec_entry_pointer(
                    k as nat,
                    member@,
                ),
        decreases length - at,
    {
        pointers.push(entry_pointer(at, member));
        at = at + 1;
    }
    pointers
}

/// A copy of a text that may be absent.
fn copy_text(text: &Option<String>) -> (copy: Option<String>)
    ensures
        opt_text(copy) == opt_text(*text),
{
    match text {
        Some(text) => Some(text.clone()),
        None => None,
    }
}

/// Reads the entries under `keys` of a document.
pub fn read_entries(body: &str) -> (entries: Option<Vec<RawJwk>>)
    ensures
        match entries {
            Some(found) => spec_entries(body@) == Some(raw_views(found@)),
            None => spec_entries(body@) is None,
        },
{
    let length = match json_length(body, KEYS_POINTER) {
        Some(length) => length,
        None => { return None; },
    };
    let kids = json_texts(body, &member_pointers(length, "kid"));
    let moduli = json_texts(body, &member_pointers(length, "n"));
    let exponents = json_texts(body, &member_pointers(length, "e"));
    let mut entries: Vec<RawJwk> = Vec::new();
    let mut at: usize = 0;
    while at < length
        invariant
            at <= length,
            kids@.len() == length,
            moduli@.len() == length,
            exponents@.len() == length,
            forall|k: int|
                0 <= k < length ==> opt_text(#[trigger] kids@[k]) == json_text_at(
                    body@,
                    spec_entry_pointer(k as nat, "kid"@),
                ),
            forall|k: int|
                0 <= k < length ==> opt_text(#[trigger] moduli@[k]) == json_text_at(
                    body@,
                    spec_entry_pointer(k as nat, "n"@),
                ),
            forall|k: int|
                0 <= k < length ==> opt_text(#[trigger] exponents@[k]) == json_text_at(
                    body@,
                    spec_entry_pointer(k as nat, "e"@),
                ),
            entries@.len() == at,
            forall|k: int| 0 <= k < at ==> (#[trigger] entries@[k])@ == spec_entry(body@, k as nat),
        decreases length - at,
    {
        entries.push(
            RawJwk {
                kid: copy_text(&kids[at]),
                n: copy_text(&moduli[at]),
                e: copy_text(&exponents[at]),
            },
        );
        at = at + 1;
    }
    Some(entries)
}

/// The key of a complete entry.
pub open spec fn spec_key(entry: RawJwkView) -> Option<JwkView> {
    match (entry.kid, entry.n, entry.e) {
        (Some(kid), Some(n), Some(e)) => Some(JwkView { kid, n, e }),
        _ => None,
    }
}

/// The key set of a document: every entry must be complete.
pub open spec fn spec_key_set(entries: Seq<RawJwkView>) -> Option<Seq<JwkView>> {
    if forall|at: int| 0 <= at < entries.len() ==> spec_key(#[trigger] entries[at]) is Some {
        Some(Seq::new(entries.len(), |at: int| spec_key(entries[at])->0))
    } else {
        None
    }
}

/// What the issuer's answer to a request for its key set was.
#[derive(Debug, PartialEq, Eq)]
pub enum FetchReply {
    /// No answer: the connection failed, the time allowed ran out, or the
    /// request was abandoned.
    Unreachable,
    Response { status: u16, body: String },
}

/// An issuer's answer as contracts speak of it.
pub enum FetchReplyView {
    Unreachable,
    Response { status: u16, body: Seq<char> },
}

impl View for FetchReply {
    type V = FetchReplyView;

    open spec fn view(&self) -> FetchReplyView {
        match *self {
            FetchReply::Unreachable => FetchReplyView::Unreachable,
            FetchReply::Response { status, body } => FetchReplyView::Response {
                status,
                body: body@,
            },
        }
    }
}

/// The key set an answer carries. The status must be one of success, the
/// body a document, and every entry of it a complete key.
pub open spec fn spec_fetched(reply: FetchReplyView) -> Result<Seq<JwkView>, FetchFailure> {
    match reply {
        FetchReplyView::Unreachable => Err(FetchFailure::Unreachable),
        FetchReplyView::Response { status, body } => if !(200 <= status <= 299) {
            Err(FetchFailure::Status(status))
        } else {
            match spec_entries(body) {
                None => Err(FetchFailure::Malformed),
                Some(entries) => match spec_key_set(entries) {
                    None => Err(FetchFailure::Malformed),
                    Some(keys) => Ok(keys),
                },
            }
        },
    }
}

/// A fetched key set as contracts speak of it.
pub open spec fn fetched_view(outcome: Result<JwkSet, FetchFailure>) -> Result<
    Seq<JwkView>,
    FetchFailure,
> {
    match outcome {
        Ok(set) => Ok(set@),
        Err(failure) => Err(failure),
    }
}

/// Path under which an issuer publishes its key set.
pub open spec fn well_known_path() -> Seq<char> {
    "/.well-known/jwks.json"@
}

impl JwkSet {
    /// The keys of a document's entries, if every entry is complete.
    pub fn from_entries(entries: &Vec<RawJwk>) -> (set: Option<JwkSet>)
        ensures
            match set {
                Some(found) => spec_key_set(raw_views(entries@)) == Some(found@),
                None => spec_key_set(raw_views(entries@)) is None,
            },
    {
        let ghost all = raw_views(entries@);
        let mut keys: Vec<Jwk> = Vec::new();
        let n = entries.len();
        let mut at: usize = 0;
        while at < n
            invariant
                at <= n,
                n == entries@.len(),
                all == raw_views(entries@),
                keys@.len() == at,
                forall|k: int| 0 <= k < at ==> spec_key(#[trigger] all[k]) == Some(keys@[k]@),
            decreases n - at,
        {
            let entry = &entries[at];
            match (&entry.kid, &entry.n, &entry.e) {
                (Some(kid), Some(n), Some(e)) => {
                    keys.push(Jwk { kid: kid.clone(), n: n.clone(), e: e.clone() });
                },
                _ => {
                    assert(spec_key(all[at as int]) is None);
                    return None;
                },
            }
            at = at + 1;
        }
        Some(JwkSet { keys })
    }

    /// The key set an issuer's answer carries.
    pub fn from_reply(reply: &FetchReply) -> (outcome: Result<JwkSet, FetchFailure>)
        ensures
            fetched_view(outcome) == spec_fetched(reply@),
    {
        match reply {
            FetchReply::Unreachable => Err(FetchFailure::Unreachable),
            FetchReply::Response { status, body } => {
                if *status < 200 || *status > 299 {
                    return Err(FetchFailure::Status(*status));
                }
                match read_entries(body.as_str()) {
                    None => Err(FetchFailure::Malformed),
                    Some(entries) => match JwkSet::from_entries(&entries) {
                        None => Err(FetchFailure::Malformed),
                        Some(set) => Ok(set),
                    },
                }
            },
        }
    }
}

/// Address of the key set of `issuer`.
pub fn jwks_url(issuer: &str) -> (url: String)
    ensures
        url@ == issuer@ + well_known_path(),
{
    let mut url = String::from_str(issuer);
    url.append("/.well-known/jwks.json");
    url
}

/// One issuer with its key set.
struct CacheEntry {
    issuer: String,
    keys: JwkSet,
}

/// `at` is a position of `entries` that holds `issuer`.
spec fn holds_issuer(entries: Seq<CacheEntry>, issuer: Seq<char>, at: int) -> bool {
    0 <= at < entries.len() && entries[at].issuer@ == issuer
}

/// No issuer occurs twice in `entries`.
spec fn distinct_issuers(entries: Seq<CacheEntry>) -> bool {
    forall|a: int, b: int|
        0 <= a < b < entries.len() ==> (#[trigger] entries[a]).issuer@ != (
        #[trigger] entries[b]).issuer@
}

/// The mapping that `entries` stand for.
spec fn entries_map(entries: Seq<CacheEntry>) -> Map<Seq<char>, Seq<JwkView>> {
    Map::new(
        |issuer: Seq<char>| exists|at: int| holds_issuer(entries, issuer, at),
        |issuer: Seq<char>| entries[choose|at: int| holds_issuer(entries, issuer, at)].keys@,
    )
}

/// With distinct issuers, the mapping gives each entry's issuer that
/// entry's keys.
proof fn lemma_entry_in_map(entries: Seq<CacheEntry>, at: int)
    requires
        distinct_issuers(entries),
        0 <= at < entries.len(),
    ensures
        entries_map(entries).contains_key(entries[at].issuer@),
        entries_map(entries)[entries[at].issuer@] == entries[at].keys@,
{
    let issuer = entries[at].issuer@;
    assert(holds_issuer(entries, issuer, at));
    let chosen = choose|at: int| holds_issuer(entries, issuer, at);
    assert(holds_issuer(entries, issuer, chosen));
    if chosen < at {
        assert(entries[chosen].issuer@ != entries[at].issuer@);
    } else if at < chosen {
        assert(entries[at].issuer@ != entries[chosen].issuer@);
    }
}

/// Every issuer of the mapping stands at some position of the entries,
/// and with distinct issuers at one only.
proof fn lemma_map_by_position(entries: Seq<CacheEntry>, issuer: Seq<char>) -> (at: int)
    requires
        distinct_issuers(entries),
        entries_map(entries).contains_key(issuer),
    ensures
        holds_issuer(entries, issuer, at),
        entries_map(entries)[issuer] == entries[at].keys@,
{
    let at = choose|at: int| holds_issuer(entries, issuer, at);
    lemma_entry_in_map(entries, at);
    at
}

/// Putting new keys in the place of an entry, under the same issuer, keeps
/// the issuers distinct and changes the mapping at that issuer only.
proof fn lemma_entry_replaced(before: Seq<CacheEntry>, after: Seq<CacheEntry>, at: int)
    requires
        distinct_issuers(before),
        0 <= at < before.len(),
        after.len() == before.len(),
        after[at].issuer@ == before[at].issuer@,
        forall|k: int| 0 <= k < before.len() && k != at ==> after[k] == before[k],
    ensures
        distinct_issuers(after),
        entries_map(after) == entries_map(before).insert(after[at].issuer@, after[at].keys@),
{
    let name = after[at].issuer@;
    let wanted = entries_map(before).insert(name, after[at].keys@);
    assert forall|k: int| 0 <= k < after.len() implies (#[trigger] after[k]).issuer@
        == before[k].issuer@ by {}
    assert(distinct_issuers(after));
    assert forall|key: Seq<char>| entries_map(after).contains_key(key) == wanted.contains_key(
        key,
    ) by {
        if entries_map(after).contains_key(key) {
            let k = lemma_map_by_position(after, key);
            assert(holds_issuer(before, key, k));
        }
        if entries_map(before).contains_key(key) {
            let k = lemma_map_by_position(before, key);
            assert(holds_issuer(after, key, k));
        }
        if key == name {
            assert(holds_issuer(after, key, at));
        }
    }
    assert forall|key: Seq<char>| entries_map(after).contains_key(key) implies entries_map(
        after,
    )[key] == wanted[key] by {
        let k = lemma_map_by_position(after, key);
        if key == name {
            if k != at {
                assert(after[k].issuer@ == before[k].issuer@);
                assert(before[k].issuer@ != before[at].issuer@);
            }
        } else {
            assert(holds_issuer(before, key, k));
            lemma_entry_in_map(before, k);
        }
    }
    assert(entries_map(after) =~= wanted);
}

/// Adding an entry for an issuer that is not held yet keeps the issuers
/// distinct and extends the mapping by that issuer.
proof fn lemma_entry_added(before: Seq<CacheEntry>, after: Seq<CacheEntry>)
    requires
        distinct_issuers(before),
        after.len() == before.len() + 1,
        forall|k: int| 0 <= k < before.len() ==> after[k] == before[k],
        forall|k: int| !holds_issuer(before, after.last().issuer@, k),
    ensures
        distinct_issuers(after),
        entries_map(after) == entries_map(before).insert(
            after.last().issuer@,
            after.last().keys@,
        ),
{
    let last = before.len() as int;
    let name = after.last().issuer@;
    let wanted = entries_map(before).insert(name, after.last().keys@);
    assert forall|a: int, b: int| 0 <= a < b < after.len() implies (#[trigger] after[a]).issuer@
        != (#[trigger] after[b]).issuer@ by {
        assert(after[a] == before[a]);
        if b < last {
            assert(after[b] == before[b]);
        } else {
            assert(!holds_issuer(before, name, a));
        }
    }
    assert forall|key: Seq<char>| entries_map(after).contains_key(key) == wanted.contains_key(
        key,
    ) by {
        if entries_map(after).contains_key(key) {
            let k = lemma_map_by_position(after, key);
            if k < last {
                assert(holds_issuer(before, key, k));
            }
        }
        if entries_map(before).contains_key(key) {
            let k = lemma_map_by_position(before, key);
            assert(holds_issuer(after, key, k));
        }
        if key == name {
            assert(holds_issuer(after, key, last));
        }
    }
    assert forall|key: Seq<char>| entries_map(after).contains_key(key) implies entries_map(
        after,
    )[key] == wanted[key] by {
        let k = lemma_map_by_position(after, key);
        if key == name {
            if k < last {
                assert(holds_issuer(before, name, k));
            }
        } else {
            assert(k < last);
            assert(holds_issuer(before, key, k));
            lemma_entry_in_map(before, k);
        }
    }
    assert(entries_map(after) =~= wanted);
}

/// The key sets obtained so far, one per issuer. An entry is made when a
/// key set has been fetched for its issuer and stays until the process
/// ends, unless a later fetch for the same issuer overwrites it.
pub struct JwksCache {
    entries: Vec<CacheEntry>,
}

impl View for JwksCache {
    type V = Map<Seq<char>, Seq<JwkView>>;

    closed spec fn view(&self) -> Map<Seq<char>, Seq<JwkView>> {
        entries_map(self.entries@)
    }
}

impl JwksCache {
    #[verifier::type_invariant]
    spec fn well_formed(self) -> bool {
        distinct_issuers(self.entries@)
    }

    /// A cache without entries.
    pub fn new() -> (cache: JwksCache)
        ensures
            cache@ == Map::<Seq<char>, Seq<JwkView>>::empty(),
    {
        let cache = JwksCache { entries: Vec::new() };
        cache
    }

    /// Position of the entry of `issuer`.
    fn position(&self, issuer: &str) -> (at: Option<usize>)
        ensures
            match at {
                Some(at) => holds_issuer(self.entries@, issuer@, at as int),
                None => forall|at: int| !holds_issuer(self.entries@, issuer@, at),
            },
    {
        let n = self.entries.len();
        let mut at: usize = 0;
        while at < n
            invariant
                at <= n,
                n == self.entries@.len(),
                forall|before: int| 0 <= before < at ==> !holds_issuer(
                    self.entries@,
                    issuer@,
                    before,
                ),
            decreases n - at,
        {
            if same_text(self.entries[at].issuer.as_str(), issuer) {
                return Some(at);
            }
            at = at + 1;
        }
        None
    }

    /// A copy of the key set held for `issuer`.
    pub fn get(&self, issuer: &str) -> (keys: Option<JwkSet>)
        ensures
            match keys {
                Some(found) => self@.contains_key(issuer@) && self@[issuer@] == found@,
                None => !self@.contains_key(issuer@),
            },
    {
        proof {
            use_type_invariant(self);
        }
        match self.position(issuer) {
            Some(at) => {
                proof {
                    lemma_entry_in_map(self.entries@, at as int);
                }
                Some(self.entries[at].keys.duplicate())
            },
            None => None,
        }
    }

    /// Holds `keys` for `issuer` from now on, in place of what was held for
    /// it before.
    pub fn insert(&mut self, issuer: String, keys: JwkSet)
        ensures
            final(self)@ == old(self)@.insert(issuer@, keys@),
    {
        proof {
            use_type_invariant(&*self);
        }
        let ghost before = self.entries@;
        let found = self.position(issuer.as_str());
        let mut taken = JwksCache { entries: Vec::new() };
        core::mem::swap(self, &mut taken);
        let mut entries = taken.entries;
        match found {
            Some(at) => {
                entries.set(at, CacheEntry { issuer, keys });
                proof {
                    lemma_entry_replaced(before, entries@, at as int);
                }
            },
            None => {
                entries.push(CacheEntry { issuer, keys });
                proof {
                    lemma_entry_added(before, entries@);
                }
            },
        }
        *self = JwksCache { entries };
    }

    /// First half of a lookup: the keys held for `issuer`, or the address
    /// to fetch them from. The caller holds the cache only for this call;
    /// the fetch itself goes on without it.
    pub fn resolve(&self, issuer: &str) -> (resolution: KeyResolution)
        ensures
            resolution@ == spec_resolve(self@, issuer@),
    {
        match self.get(issuer) {
            Some(keys) => KeyResolution::Cached(keys),
            None => KeyResolution::Fetch { url: jwks_url(issuer) },
        }
    }

    /// Second half of a lookup that had to fetch: reads the issuer's
    /// answer, and if it carries a key set, holds that set for `issuer` and
    /// hands out a copy. After a failed fetch the cache is as it was.
    pub fn complete(&mut self, issuer: &str, reply: &FetchReply) -> (outcome: Result<
        JwkSet,
        FetchFailure,
    >)
        ensures
            fetched_view(outcome) == spec_fetched(reply@),
            final(self)@ == spec_after_fetch(old(self)@, issuer@, reply@),
    {
        match JwkSet::from_reply(reply) {
            Err(failure) => Err(failure),
            Ok(keys) => {
                let copy = keys.duplicate();
                self.insert(String::from_str(issuer), keys);
                Ok(copy)
            },
        }
    }
}

/// Where the keys of an issuer are to come from.
#[derive(Debug, PartialEq, Eq)]
pub enum KeyResolution {
    /// The cache holds them.
    Cached(JwkSet),
    /// They have to be fetched from `url`.
    Fetch { url: String },
}

/// A resolution as contracts speak of it.
pub enum KeyResolutionView {
    Cached(Seq<JwkView>),
    Fetch { url: Seq<char> },
}

impl View for KeyResolution {
    type V = KeyResolutionView;

    open spec fn view(&self) -> KeyResolutionView {
        match *self {
            KeyResolution::Cached(keys) => KeyResolutionView::Cached(keys@),
            KeyResolution::Fetch { url } => KeyResolutionView::Fetch { url: url@ },
        }
    }
}

/// What a lookup of `issuer` finds in `cache`.
pub open spec fn spec_resolve(
    cache: Map<Seq<char>, Seq<JwkView>>,
    issuer: Seq<char>,
) -> KeyResolutionView {
    if cache.contains_key(issuer) {
        KeyResolutionView::Cached(cache[issuer])
    } else {
        KeyResolutionView::Fetch { url: issuer + well_known_path() }
    }
}

/// The cache after the issuer's answer to a fetch has been read.
pub open spec fn spec_after_fetch(
    cache: Map<Seq<char>, Seq<JwkView>>,
    issuer: Seq<char>,
    reply: FetchReplyView,
) -> Map<Seq<char>, Seq<JwkView>> {
    match spec_fetched(reply) {
        Ok(keys) => cache.insert(issuer, keys),
        Err(_) => cache,
    }
}

/// One fetch that has come back: the issuer asked, and its answer.
pub struct FetchEvent {
    pub issuer: Seq<char>,
    pub reply: FetchReplyView,
}

/// The cache after a run of fetches has come back, in this order.
pub open spec fn spec_after_fetches(
    cache: Map<Seq<char>, Seq<JwkView>>,
    events: Seq<FetchEvent>,
) -> Map<Seq<char>, Seq<JwkView>>
    decreases events.len(),
{
    if events.len() == 0 {
        cache
    } else {
        spec_after_fetch(
            spec_after_fetches(cache, events.drop_last()),
            events.last().issuer,
            events.last().reply,
        )
    }
}

/// Once a fetch for an issuer has succeeded, a lookup of that issuer is
/// answered from the cache, with the keys that were fetched, and calls for
/// no fetch.
pub proof fn lemma_fetched_keys_are_cached(
    cache: Map<Seq<char>, Seq<JwkView>>,
    issuer: Seq<char>,
    reply: FetchReplyView,
)
    requires
        spec_fetched(reply) is Ok,
    ensures
        spec_resolve(spec_after_fetch(cache, issuer, reply), issuer) == KeyResolutionView::Cached(
            spec_fetched(reply)->Ok_0,
        ),
{
}

/// No fetch, good or bad, for whatever issuer, takes an entry away: an
/// issuer that is held stays held through any run of later fetches, so its
/// lookups never call for a fetch again.
pub proof fn lemma_entries_stay(
    cache: Map<Seq<char>, Seq<JwkView>>,
    issuer: Seq<char>,
    events: Seq<FetchEvent>,
)
    requires
        cache.contains_key(issuer),
    ensures
        spec_after_fetches(cache, events).contains_key(issuer),
        spec_resolve(spec_after_fetches(cache, events), issuer) is Cached,
    decreases events.len(),
{
    if events.len() > 0 {
        lemma_entries_stay(cache, issuer, events.drop_last());
    }
}

/// The keys held for an issuer change only by a successful fetch for that
/// very issuer: a failed fetch, and a fetch for another issuer, leave them
/// as they are.
pub proof fn lemma_entry_changes_only_by_own_fetch(
    cache: Map<Seq<char>, Seq<JwkView>>,
    issuer: Seq<char>,
    other: Seq<char>,
    reply: FetchReplyView,
)
    requires
        cache.contains_key(issuer),
        other != issuer || spec_fetched(reply) is Err,
    ensures
        spec_after_fetch(cache, other, reply)[issuer] == cache[issuer],
{
}

/// Two lookups that both miss an issuer and both fetch come to the same
/// end in either order, when the issuer serves both the same keys: each
/// is handed those keys, and the cache holds them once.
pub proof fn lemma_racing_fetches_agree(
    cache: Map<Seq<char>, Seq<JwkView>>,
    issuer: Seq<char>,
    first: FetchReplyView,
    second: FetchReplyView,
)
    requires
        spec_fetched(first) is Ok,
        spec_fetched(first) == spec_fetched(second),
    ensures
        spec_after_fetch(spec_after_fetch(cache, issuer, first), issuer, second)
            == spec_after_fetch(spec_after_fetch(cache, issuer, second), issuer, first),
        spec_after_fetch(spec_after_fetch(cache, issuer, first), issuer, second)
            == spec_after_fetch(cache, issuer, first),
        spec_after_fetch(cache, issuer, first)[issuer] == spec_fetched(first)->Ok_0,
{
    let keys = spec_fetched(first)->Ok_0;
    assert(cache.insert(issuer, keys).insert(issuer, keys) =~= cache.insert(issuer, keys));
}

/// When two fetches for one issuer bring different keys, the one read last
/// decides what is held.
pub proof fn lemma_last_fetch_wins(
    cache: Map<Seq<char>, Seq<JwkView>>,
    issuer: Seq<char>,
    first: FetchReplyView,
    second: FetchReplyView,
)
    requires
        spec_fetched(second) is Ok,
    ensures
        spec_after_fetch(spec_after_fetch(cache, issuer, first), issuer, second)[issuer]
            == spec_fetched(second)->Ok_0,
{
}

} // verus!
