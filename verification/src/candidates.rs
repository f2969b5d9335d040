//! The creators that a run follows, and why.

use crate::counts::NamedCount;
use crate::double::Double;
use crate::json::{json_str, Json, JsonModel, ObjectBuilder};
use crate::text::{join3, str_eq};
use vstd::prelude::*;

verus! {

/// Where a creator was found.
#[derive(Clone, Copy, Debug, PartialEq, Eq, Structural)]
pub enum Source {
    /// Large transfers.
    Deagle,
    /// Trading volume.
    VolCreators,
    /// Steady past mints.
    GrandChillers,
    /// The trust database.
    DexterTrust,
    /// Any other origin.
    Other,
}

/// A creator that was selected, with the reasons.
#[derive(Debug)]
pub struct CandidateObservation {
    pub creator: String,
    pub source_label: String,
    pub score_components: Json,
    pub score_total: Double,
    pub cohort_size: usize,
    pub reason: String,
}

/// A selected creator as a mathematical value.
#[verifier::ext_equal]
pub struct ObservationModel {
    pub creator: Seq<char>,
    pub source_label: Seq<char>,
    pub score_components: JsonModel,
    pub score_total: Double,
    pub cohort_size: nat,
    pub reason: Seq<char>,
}

impl ObservationModel {
    /// What filters know the observation by: its source and its creator.
    pub open spec fn key(self) -> Seq<char> {
        self.source_label + "::"@ + self.creator
    }

    /// The observation as it is exported.
    pub open spec fn document(self) -> JsonModel {
        JsonModel::Object(
            map![
                "creator"@ => JsonModel::Str(self.creator),
                "source_label"@ => JsonModel::Str(self.source_label),
                "score_components"@ => self.score_components,
                "score_total"@ => JsonModel::Float(self.score_total),
                "cohort_size"@ => JsonModel::Int(self.cohort_size as int),
                "reason"@ => JsonModel::Str(self.reason),
            ],
        )
    }

    /// What the run reports of the candidate.
    pub open spec fn payload(self, reason_override: Seq<char>) -> JsonModel {
        JsonModel::Object(
            map![
                "candidate_source"@ => JsonModel::Str(self.source_label),
                "score_components"@ => self.score_components,
                "score_total"@ => JsonModel::Float(self.score_total),
                "cohort_size"@ => JsonModel::Int(self.cohort_size as int),
                "reason"@ => JsonModel::Str(reason_override),
                "source_reason"@ => JsonModel::Str(self.reason),
            ],
        )
    }
}

/// Whether a filter lets a key pass: without a filter every key passes.
pub open spec fn passes(filter: Option<Seq<Seq<char>>>, key: Seq<char>) -> bool {
    filter matches Some(keys) ==> keys.contains(key)
}

/// The keys of an optional filter.
pub open spec fn filter_view(filter: Option<&Vec<String>>) -> Option<Seq<Seq<char>>> {
    match filter {
        Some(keys) => Some(crate::paths::strings_view(keys@)),
        None => None,
    }
}

/// Whether a filter lets a key pass.
pub fn key_passes(filter: Option<&Vec<String>>, key: &str) -> (yes: bool)
    ensures
        yes == passes(filter_view(filter), key@),
{
    let keys = match filter {
        Some(keys) => keys,
        None => {
            return true;
        },
    };
    let ghost texts = crate::paths::strings_view(keys@);
    let mut i: usize = 0;
    while i < keys.len()
        invariant
            texts == crate::paths::strings_view(keys@),
            filter_view(filter) == Some(texts),
            i <= keys.len(),
            forall|j: int| 0 <= j < i ==> #[trigger] texts[j] != key@,
        decreases keys.len() - i,
    {
        if str_eq(keys[i].as_str(), key) {
            assert(texts[i as int] == key@);
            return true;
        }
        i = i + 1;
    }
    false
}

impl CandidateObservation {
    /// The observation as a mathematical value.
    pub open spec fn model(self) -> ObservationModel {
        ObservationModel {
            creator: self.creator@,
            source_label: self.source_label@,
            score_components: self.score_components.model(),
            score_total: self.score_total,
            cohort_size: self.cohort_size as nat,
            reason: self.reason@,
        }
    }

    /// What filters know the observation by.
    pub fn key(&self) -> (key: String)
        ensures
            key@ == self.model().key(),
    {
        join3(self.source_label.as_str(), "::", self.creator.as_str())
    }

    /// The observation as it is exported.
    pub fn to_json(&self) -> (document: Json)
        ensures
            document.model() == self.model().document(),
    {
        let mut o = ObjectBuilder::new();
        o.put("creator", json_str(self.creator.as_str()));
        o.put("source_label", json_str(self.source_label.as_str()));
        o.put("score_components", self.score_components.copy());
        o.put("score_total", Json::Float(self.score_total));
        o.put("cohort_size", Json::UInt(self.cohort_size as u64));
        o.put("reason", json_str(self.reason.as_str()));
        o.build()
    }

    /// What the run reports of the candidate.
    pub fn payload(&self, reason_override: &str) -> (payload: Json)
        ensures
            payload.model() == self.model().payload(reason_override@),
    {
        let mut o = ObjectBuilder::new();
        o.put("candidate_source", json_str(self.source_label.as_str()));
        o.put("score_components", self.score_components.copy());
        o.put("score_total", Json::Float(self.score_total));
        o.put("cohort_size", Json::UInt(self.cohort_size as u64));
        o.put("reason", json_str(reason_override));
        o.put("source_reason", json_str(self.reason.as_str()));
        o.build()
    }
}

/// The outcome of a selection of creators.
#[derive(Debug)]
pub struct CandidateSelectionReport {
    pub creators: Vec<(String, Source)>,
    pub observations: Vec<CandidateObservation>,
    pub source_counts: Vec<NamedCount>,
}

/// The models of a list of observations.
pub open spec fn observations_view(observations: Seq<CandidateObservation>) -> Seq<
    ObservationModel,
> {
    observations.map_values(|o: CandidateObservation| o.model())
}

impl CandidateSelectionReport {
    /// The observations as a JSON array.
    pub fn observations_json(&self) -> (out: Json)
        ensures
            out.model() == JsonModel::Array(
                observations_view(self.observations@).map_values(
                    |o: ObservationModel| o.document(),
                ),
            ),
    {
        let mut items: Vec<Json> = Vec::new();
        let ghost models = observations_view(self.observations@);
        let ghost to_model = |o: ObservationModel| o.document();
        let mut i: usize = 0;
        while i < self.observations.len()
            invariant
                i <= self.observations.len(),
                models == observations_view(self.observations@),
                to_model == (|o: ObservationModel| o.document()),
                crate::json::items_model(items@) == models.take(i as int).map_values(to_model),
            decreases self.observations.len() - i,
        {
            let item = self.observations[i].to_json();
            proof {
                crate::json::items_model_push(items@, item);
                assert(models.take(i + 1).map_values(to_model) =~= models.take(
                    i as int,
                ).map_values(to_model).push(item.model()));
            }
            items.push(item);
            i = i + 1;
        }
        assert(models.take(i as int) =~= models);
        Json::Array(items)
    }
}

/// How many of a list of candidates a filter lets pass.
pub open spec fn passing(
    observations: Seq<ObservationModel>,
    filter: Option<Seq<Seq<char>>>,
) -> nat
    decreases observations.len(),
{
    if observations.len() == 0 {
        0
    } else {
        let before = passing(observations.drop_last(), filter);
        if passes(filter, observations.last().key()) {
            before + 1
        } else {
            before
        }
    }
}

/// How many of a list of candidates a filter lets pass.
pub fn passing_count(
    observations: &Vec<CandidateObservation>,
    filter: Option<&Vec<String>>,
) -> (count: usize)
    ensures
        count == passing(observations_view(observations@), filter_view(filter)),
{
    let ghost all = observations_view(observations@);
    let mut count: usize = 0;
    let mut i: usize = 0;
    while i < observations.len()
        invariant
            i <= observations.len(),
            count <= i,
            all == observations_view(observations@),
            count == passing(all.take(i as int), filter_view(filter)),
        decreases observations.len() - i,
    {
        assert(all.take(i + 1).drop_last() =~= all.take(i as int));
        if key_passes(filter, observations[i].key().as_str()) {
            count = count + 1;
        }
        i = i + 1;
    }
    assert(all.take(i as int) =~= all);
    count
}

/// Of a list's first candidates no more pass than of the whole list, and of the whole list no more
/// than it has.
pub proof fn passing_grows(
    observations: Seq<ObservationModel>,
    filter: Option<Seq<Seq<char>>>,
    n: int,
)
    requires
        0 <= n <= observations.len(),
    ensures
        passing(observations.take(n), filter) <= passing(observations, filter)
            <= observations.len(),
    decreases observations.len(),
{
    if n < observations.len() {
        assert(observations.drop_last().take(n) =~= observations.take(n));
        passing_grows(observations.drop_last(), filter, n);
    } else {
        assert(observations.take(n) =~= observations);
        if n > 0 {
            passing_grows(observations.drop_last(), filter, n - 1);
        }
    }
}

/// A candidate is known to filters by its source, two colons and its creator.
pub proof fn keys_join_source_and_creator(observation: ObservationModel)
    ensures
        ({
            let key = observation.key();
            let n = observation.source_label.len() as int;
            &&& key.take(n) == observation.source_label
            &&& key[n] == ':' && key[n + 1] == ':'
            &&& key.skip(n + 2) == observation.creator
        }),
{
    reveal_strlit("::");
    let key = observation.key();
    let n = observation.source_label.len() as int;
    assert(key.take(n) =~= observation.source_label);
    assert(key.skip(n + 2) =~= observation.creator);
}

/// Without a filter every candidate passes; with one, those whose key it lists. One more candidate
/// is one more that passes, exactly if it does.
pub proof fn filters_list_what_passes(
    observations: Seq<ObservationModel>,
    filter: Option<Seq<Seq<char>>>,
    more: ObservationModel,
)
    ensures
        filter is None ==> passing(observations, filter) == observations.len(),
        filter is Some && filter->0.len() == 0 ==> passing(observations, filter) == 0,
        filter is None || (exists|i: int|
            0 <= i < filter->0.len() && #[trigger] filter->0[i] == more.key()) ==> passing(
            observations.push(more),
            filter,
        ) == passing(observations, filter) + 1,
        filter is Some && (forall|i: int|
            0 <= i < filter->0.len() ==> #[trigger] filter->0[i] != more.key()) ==> passing(
            observations.push(more),
            filter,
        ) == passing(observations, filter),
    decreases observations.len(),
{
    assert(observations.push(more).drop_last() =~= observations);
    if filter is Some {
        if exists|i: int| 0 <= i < filter->0.len() && #[trigger] filter->0[i] == more.key() {
            let i = choose|i: int|
                0 <= i < filter->0.len() && #[trigger] filter->0[i] == more.key();
            assert(filter->0.contains(filter->0[i]));
        }
    }
    if observations.len() > 0 {
        let rest = observations.drop_last();
        filters_list_what_passes(rest, filter, observations.last());
        assert(rest.push(observations.last()) =~= observations);
    }
}

/// What is known of an observation as a mathematical value is what the observation itself holds.
pub proof fn observations_are_modelled_field_by_field(
    observation: CandidateObservation,
    observations: Seq<CandidateObservation>,
    keys: Vec<String>,
    i: int,
)
    ensures
        observation.model().creator == observation.creator@,
        observation.model().source_label == observation.source_label@,
        observation.model().score_components == observation.score_components.model(),
        observation.model().score_total == observation.score_total,
        observation.model().cohort_size == observation.cohort_size,
        observation.model().reason == observation.reason@,
        observations_view(observations).len() == observations.len(),
        0 <= i < observations.len() ==> observations_view(observations)[i]
            == observations[i].model(),
        filter_view(None) is None,
        filter_view(Some(&keys)) is Some,
        filter_view(Some(&keys))->0.len() == keys@.len(),
        0 <= i < keys@.len() ==> filter_view(Some(&keys))->0[i] == keys@[i]@,
{
}

} // verus!
