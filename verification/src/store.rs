//! The trace store: a keyed cache holding, per file identifier, a decoded
//! trace record together with its calibrated curve.
//!
//! An entry is created atomically as a pair: a record is never visible
//! without its curve having been derived, and if calibration fails nothing
//! is stored (all-or-nothing insert). The only mutation is wholesale
//! replacement by a later successful load of the same identifier. Callers
//! that share a store across threads guard it with a lock so that each
//! operation is atomic with respect to the store as a whole.

use vstd::prelude::*;

use crate::curve::{CalibratedCurve, CurvePoint};
use crate::engine::{spec_curve, spec_validate, summarize, CalibrationError};
use crate::trace::{CalibrationParameters, DecodedTrace, SampleData, ScaleFactorData, TraceView};

verus! {

/// The identifier was never successfully loaded.
#[derive(Clone, Copy, PartialEq, Eq, Structural, Debug)]
pub struct NotFound;

/// Why a load left the store unchanged.
#[derive(Clone, Copy, PartialEq, Eq, Structural, Debug)]
pub enum LoadError {
    /// The bytes are not a well-formed trace file; the decoder's failure
    /// reasons are opaque to this store.
    DecodeFailed,
    /// The bytes decoded, but the record cannot be calibrated; the decoded
    /// record is deliberately not cached without its curve.
    SummaryFailed(CalibrationError),
}

/// A cached entry: a decoded record together with its calibrated curve,
/// created and replaced only as a pair.
pub struct CacheEntry {
    pub record: DecodedTrace,
    pub curve: CalibratedCurve,
}

/// The mathematical content of a cache entry.
pub struct EntryModel {
    pub record: TraceView,
    pub curve: Seq<CurvePoint>,
}

/// The mathematical content of a [`CacheEntry`] value.
pub open spec fn entry_model(e: CacheEntry) -> EntryModel {
    EntryModel { record: e.record@, curve: e.curve@ }
}

/// What the external decoder yields for a byte string: a decoded record for
/// well-formed trace files, nothing otherwise. The decoder is deterministic
/// and side-effect-free, so its result is a function of the bytes alone.
pub uninterp spec fn decode_spec(bytes: Seq<u8>) -> Option<TraceView>;

/// Relies on `otdrs::parser::parse_file`: a deterministic, side-effect-free
/// parse of a byte string into a structured record. The wrapper keeps the
/// two block groups that calibration reads and maps the parser's opaque
/// failure to `None`.
#[verifier::external_body]
fn decode_trace(bytes: &[u8]) -> (r: Option<DecodedTrace>)
    ensures
        match r {
            Some(t) => decode_spec(bytes@) == Some(t@),
            None => decode_spec(bytes@) is None,
        },
{
    let sor = match otdrs::parser::parse_file(bytes) { Err(_) => return None, Ok((_, s)) => s };
    Some(DecodedTrace {
        data_points: sor.data_points.map(|d| SampleData {
            total_scale_factors_used: d.total_number_scale_factors_used,
            scale_factors: d.scale_factors.into_iter().map(
                |b| ScaleFactorData { scale_factor: b.scale_factor, samples: b.data },
            ).collect(),
        }),
        fixed_parameters: sor.fixed_parameters.map(
            |f| CalibrationParameters { group_index: f.group_index, data_spacing: f.data_spacing },
        ),
    })
}

/// The outcome of loading a byte string: the entry that a successful load
/// caches, or the error of the first failing stage.
pub open spec fn spec_load_outcome(decoded: Option<TraceView>) -> Result<EntryModel, LoadError> {
    match decoded {
        None => Err(LoadError::DecodeFailed),
        Some(t) => match spec_validate(t) {
            Some(e) => Err(LoadError::SummaryFailed(e)),
            None => Ok(EntryModel { record: t, curve: spec_curve(t) }),
        },
    }
}

/// The store contents after a load: on success the entry is inserted or
/// replaced wholesale under its identifier; on failure the store is left
/// unchanged.
pub open spec fn spec_store_after_load(
    m: Map<Seq<char>, EntryModel>,
    id: Seq<char>,
    decoded: Option<TraceView>,
) -> Map<Seq<char>, EntryModel> {
    match spec_load_outcome(decoded) {
        Ok(e) => m.insert(id, e),
        Err(_) => m,
    }
}

/// What fetching the record of `id` yields from store contents `m`.
pub open spec fn spec_fetch_record(m: Map<Seq<char>, EntryModel>, id: Seq<char>) -> Result<
    TraceView,
    NotFound,
> {
    if m.contains_key(id) {
        Ok(m[id].record)
    } else {
        Err(NotFound)
    }
}

/// What fetching the curve of `id` yields from store contents `m`.
pub open spec fn spec_fetch_summary(m: Map<Seq<char>, EntryModel>, id: Seq<char>) -> Result<
    Seq<CurvePoint>,
    NotFound,
> {
    if m.contains_key(id) {
        Ok(m[id].curve)
    } else {
        Err(NotFound)
    }
}

/// The mapping that an entry list denotes: each key to the model of the
/// entry stored under it, with later entries overriding earlier ones.
pub open spec fn entries_map(s: Seq<(String, CacheEntry)>) -> Map<Seq<char>, EntryModel>
    decreases s.len(),
{
    if s.len() == 0 {
        Map::empty()
    } else {
        entries_map(s.drop_last()).insert(s.last().0@, entry_model(s.last().1))
    }
}

/// With pairwise-distinct keys, every listed entry is in the denoted map.
proof fn lemma_entries_map_index(s: Seq<(String, CacheEntry)>, i: int)
    requires
        0 <= i < s.len(),
        forall|p: int, q: int|
            0 <= p < q < s.len() ==> (#[trigger] s[p].0@) != (#[trigger] s[q].0@),
    ensures
        entries_map(s).contains_key(s[i].0@),
        entries_map(s)[s[i].0@] == entry_model(s[i].1),
    decreases s.len(),
{
    if i < s.len() - 1 {
        lemma_entries_map_index(s.drop_last(), i);
        assert(s.last().0@ != s[i].0@);
    }
}

/// A key that no listed entry carries is not in the denoted map.
proof fn lemma_entries_map_absent(s: Seq<(String, CacheEntry)>, k: Seq<char>)
    requires
        forall|p: int| 0 <= p < s.len() ==> (#[trigger] s[p].0@) != k,
    ensures
        !entries_map(s).contains_key(k),
    decreases s.len(),
{
    if s.len() > 0 {
        lemma_entries_map_absent(s.drop_last(), k);
    }
}

/// Replacing the entry that already carries a key denotes the same map as
/// inserting the replacement.
proof fn lemma_entries_map_update(s: Seq<(String, CacheEntry)>, i: int, e: (String, CacheEntry))
    requires
        0 <= i < s.len(),
        forall|p: int, q: int|
            0 <= p < q < s.len() ==> (#[trigger] s[p].0@) != (#[trigger] s[q].0@),
        e.0@ == s[i].0@,
    ensures
        entries_map(s.update(i, e)) == entries_map(s).insert(e.0@, entry_model(e.1)),
    decreases s.len(),
{
    let su = s.update(i, e);
    if i == s.len() - 1 {
        assert(su.drop_last() =~= s.drop_last());
        assert(su.last() == e);
        assert(entries_map(su) =~= entries_map(s).insert(e.0@, entry_model(e.1)));
    } else {
        assert(su.drop_last() =~= s.drop_last().update(i, e));
        lemma_entries_map_update(s.drop_last(), i, e);
        assert(su.last() == s.last());
        assert(s.last().0@ != e.0@);
        assert(entries_map(su) =~= entries_map(s).insert(e.0@, entry_model(e.1)));
    }
}

/// The keyed cache of decoded traces and their calibrated curves, shared by
/// all callers; keys are unique, insertion order carries no meaning.
pub struct TraceStore {
    entries: Vec<(String, CacheEntry)>,
}

impl View for TraceStore {
    type V = Map<Seq<char>, EntryModel>;

    closed spec fn view(&self) -> Map<Seq<char>, EntryModel> {
        entries_map(self.entries@)
    }
}

impl TraceStore {
    /// Well-formedness: cached identifiers are pairwise distinct.
    pub closed spec fn wf(&self) -> bool {
        forall|p: int, q: int|
            0 <= p < q < self.entries@.len() ==> (#[trigger] self.entries@[p].0@) != (
            #[trigger] self.entries@[q].0@)
    }

    /// An empty store.
    pub fn new() -> (r: Self)
        ensures
            r.wf(),
            r@ == Map::<Seq<char>, EntryModel>::empty(),
    {
        TraceStore { entries: Vec::new() }
    }

    /// The index of the entry carrying `id`, if one is cached.
    fn find_index(&self, id: &String) -> (r: Option<usize>)
        ensures
            match r {
                Some(i) => i < self.entries@.len() && self.entries@[i as int].0@ == id@,
                None => forall|j: int|
                    0 <= j < self.entries@.len() ==> (#[trigger] self.entries@[j].0@) != id@,
            },
    {
        let mut i: usize = 0;
        while i < self.entries.len()
            invariant
                i <= self.entries.len(),
                forall|j: int| 0 <= j < i ==> (#[trigger] self.entries@[j].0@) != id@,
            decreases self.entries.len() - i,
        {
            if self.entries[i].0 == *id {
                return Some(i);
            }
            i = i + 1;
        }
        None
    }

    /// Inserts or wholesale-replaces the entry under `id`.
    fn insert_entry(&mut self, id: String, entry: CacheEntry)
        requires
            old(self).wf(),
        ensures
            final(self).wf(),
            final(self)@ == old(self)@.insert(id@, entry_model(entry)),
    {
        let found = self.find_index(&id);
        let pair = (id, entry);
        let ghost p = pair;
        let ghost s = self.entries@;
        match found {
            Some(i) => {
                proof {
                    assert forall|a: int, b: int|
                        0 <= a < b < s.update(i as int, p).len() implies (#[trigger] s.update(
                        i as int,
                        p,
                    )[a].0@) != (#[trigger] s.update(i as int, p)[b].0@) by {
                        assert(s[a].0@ != s[b].0@);
                    }
                }
                self.entries.set(i, pair);
                proof {
                    assert(self.entries@ == s.update(i as int, p));
                    lemma_entries_map_update(s, i as int, p);
                }
            },
            None => {
                proof {
                    assert forall|a: int, b: int|
                        0 <= a < b < s.push(p).len() implies (#[trigger] s.push(p)[a].0@) != (
                        #[trigger] s.push(p)[b].0@) by {
                        if b < s.len() {
                            assert(s[a].0@ != s[b].0@);
                        }
                    }
                }
                self.entries.push(pair);
                proof {
                    assert(self.entries@ == s.push(p));
                    assert(self.entries@.drop_last() =~= s);
                    assert(self.entries@.last() == p);
                }
            },
        }
    }

    /// Decodes `bytes`, derives the calibrated curve, and on success caches
    /// both under `id` as one atomic replacement, returning the identifier.
    ///
    /// On any failure the store is left unchanged: a record whose curve
    /// cannot be derived is not cached at all.
    pub fn load(&mut self, id: String, bytes: &[u8]) -> (r: Result<String, LoadError>)
        requires
            old(self).wf(),
        ensures
            final(self).wf(),
            final(self)@ == spec_store_after_load(old(self)@, id@, decode_spec(bytes@)),
            match r {
                Ok(rid) => rid@ == id@ && spec_load_outcome(decode_spec(bytes@)) is Ok,
                Err(e) => spec_load_outcome(decode_spec(bytes@)) == Err::<EntryModel, LoadError>(e),
            },
    {
        let record = match decode_trace(bytes) {
            None => return Err(LoadError::DecodeFailed),
            Some(t) => t,
        };
        let curve = match summarize(&record) {
            Err(e) => return Err(LoadError::SummaryFailed(e)),
            Ok(c) => c,
        };
        let returned_id = id.clone();
        self.insert_entry(id, CacheEntry { record, curve });
        Ok(returned_id)
    }

    /// A copy of the cached record of `id`, or `NotFound` if no load of
    /// `id` ever succeeded.
    pub fn fetch_record(&self, id: &String) -> (r: Result<DecodedTrace, NotFound>)
        requires
            self.wf(),
        ensures
            match r {
                Ok(t) => spec_fetch_record(self@, id@) == Ok::<TraceView, NotFound>(t@),
                Err(e) => spec_fetch_record(self@, id@) == Err::<TraceView, NotFound>(e),
            },
    {
        match self.find_index(id) {
            Some(i) => {
                proof {
                    lemma_entries_map_index(self.entries@, i as int);
                }
                Ok(self.entries[i].1.record.clone())
            },
            None => {
                proof {
                    lemma_entries_map_absent(self.entries@, id@);
                }
                Err(NotFound)
            },
        }
    }

    /// A copy of the cached calibrated curve of `id`, or `NotFound` if no
    /// load of `id` ever succeeded.
    pub fn fetch_summary(&self, id: &String) -> (r: Result<CalibratedCurve, NotFound>)
        requires
            self.wf(),
        ensures
            match r {
                Ok(c) => spec_fetch_summary(self@, id@) == Ok::<Seq<CurvePoint>, NotFound>(c@),
                Err(e) => spec_fetch_summary(self@, id@) == Err::<Seq<CurvePoint>, NotFound>(e),
            },
    {
        match self.find_index(id) {
            Some(i) => {
                proof {
                    lemma_entries_map_index(self.entries@, i as int);
                }
                Ok(self.entries[i].1.curve.clone())
            },
            None => {
                proof {
                    lemma_entries_map_absent(self.entries@, id@);
                }
                Err(NotFound)
            },
        }
    }
}

/// All-or-nothing insert: when a load fails — the bytes do not decode, or
/// the decoded record cannot be calibrated — an identifier that was absent
/// before the load is still reported absent by both fetch operations.
pub proof fn lemma_failed_load_leaves_no_entry(
    m: Map<Seq<char>, EntryModel>,
    id: Seq<char>,
    decoded: Option<TraceView>,
)
    requires
        spec_load_outcome(decoded) is Err,
        !m.contains_key(id),
    ensures
        spec_fetch_record(spec_store_after_load(m, id, decoded), id) == Err::<
            TraceView,
            NotFound,
        >(NotFound),
        spec_fetch_summary(spec_store_after_load(m, id, decoded), id) == Err::<
            Seq<CurvePoint>,
            NotFound,
        >(NotFound),
{
}

/// Idempotent replace: two successful loads under one identifier leave the
/// store exactly as the second alone would; no trace of the first remains.
pub proof fn lemma_reload_replaces_wholesale(
    m: Map<Seq<char>, EntryModel>,
    id: Seq<char>,
    first: Option<TraceView>,
    second: Option<TraceView>,
)
    requires
        spec_load_outcome(first) is Ok,
        spec_load_outcome(second) is Ok,
    ensures
        spec_store_after_load(spec_store_after_load(m, id, first), id, second)
            == spec_store_after_load(m, id, second),
{
    assert(spec_store_after_load(spec_store_after_load(m, id, first), id, second)
        =~= spec_store_after_load(m, id, second));
}

} // verus!
