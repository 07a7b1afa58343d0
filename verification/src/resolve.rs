//! Resolution of an asset name for the document that is open: first beside
//! the document, then through the index.

use crate::paths::{joined, parent_of, path_join, path_parent};
use crate::text::opt_view;
use vstd::prelude::*;

verus! {

/// `text` with its percent escapes decoded, as `urlencoding::decode` gives
/// it; `None` where the decoded bytes are not UTF-8.
pub uninterp spec fn percent_decoded(text: Seq<char>) -> Option<Seq<char>>;

/// Calls `urlencoding::decode`. Trusted: the result is a function of the
/// text alone, named `percent_decoded`, and a text without `%` comes back as
/// it is.
#[verifier::external_body]
pub(crate) fn percent_decode(text: &str) -> (decoded: Option<String>)
    ensures
        opt_view(decoded) == percent_decoded(text@),
        !text@.contains('%') ==> opt_view(decoded) == Some(text@),
{
    urlencoding::decode(text).ok().map(|d| d.into_owned())
}

/// The name under which the index is asked for an asset: the name with its
/// percent escapes decoded, or the name as it is where that cannot be done.
pub open spec fn lookup_key_of(asset_name: Seq<char>) -> Seq<char> {
    match percent_decoded(asset_name) {
        Some(decoded) => decoded,
        None => asset_name,
    }
}

/// The name to match, exactly and with regard to case, against the file
/// names of the index. A name without `%` is its own key.
pub fn lookup_key(asset_name: &str) -> (key: String)
    ensures
        key@ == lookup_key_of(asset_name@),
        !asset_name@.contains('%') ==> key@ == asset_name@,
{
    match percent_decode(asset_name) {
        Some(decoded) => decoded,
        None => asset_name.to_owned(),
    }
}

/// Where an asset would lie beside the document: the document's parent
/// directory joined with the asset's name. A document path without a parent
/// has no such place.
pub open spec fn local_candidate_of(document: Seq<char>, asset_name: Seq<char>) -> Option<
    Seq<char>,
> {
    match parent_of(document) {
        Some(dir) => Some(joined(dir, asset_name)),
        None => None,
    }
}

/// The path to look at on disk before the index is asked.
pub fn local_candidate(current_file_path: &str, asset_name: &str) -> (candidate: Option<String>)
    ensures
        opt_view(candidate) == local_candidate_of(current_file_path@, asset_name@),
{
    match path_parent(current_file_path) {
        Some(dir) => Some(path_join(dir.as_str(), asset_name)),
        None => None,
    }
}

/// The first stage of resolution: the local candidate, if `exists` says that
/// it is there on disk.
pub fn resolve_relative_path(
    current_file_path: &str,
    asset_name: &str,
    exists: bool,
) -> (local: Option<String>)
    ensures
        exists ==> opt_view(local) == local_candidate_of(current_file_path@, asset_name@),
        !exists ==> local is None,
{
    if exists {
        local_candidate(current_file_path, asset_name)
    } else {
        None
    }
}

/// What the outside world answered about one asset.
#[derive(Debug, Clone)]
pub struct AssetProbe {
    /// Whether the local candidate exists on disk.
    pub local_exists: bool,
    /// The path that the index gave for the asset's lookup key; `None` where
    /// it holds no match, failed, or was not asked.
    pub indexed: Option<String>,
}

pub struct AssetProbeView {
    pub local_exists: bool,
    pub indexed: Option<Seq<char>>,
}

impl View for AssetProbe {
    type V = AssetProbeView;

    open spec fn view(&self) -> AssetProbeView {
        AssetProbeView { local_exists: self.local_exists, indexed: opt_view(self.indexed) }
    }
}

/// Where an asset is: beside the document if it exists there, else where the
/// index says, else nowhere.
pub open spec fn resolved(document: Seq<char>, asset_name: Seq<char>, probe: AssetProbeView)
    -> Option<Seq<char>> {
    match local_candidate_of(document, asset_name) {
        Some(candidate) => if probe.local_exists {
            Some(candidate)
        } else {
            probe.indexed
        },
        None => probe.indexed,
    }
}

/// Local precedence: an asset that exists beside the document resolves to
/// that place, whatever the index holds.
pub proof fn lemma_local_file_wins(
    document: Seq<char>,
    asset_name: Seq<char>,
    probe: AssetProbeView,
)
    requires
        probe.local_exists,
        local_candidate_of(document, asset_name) is Some,
    ensures
        resolved(document, asset_name, probe) == local_candidate_of(document, asset_name),
        resolved(document, asset_name, probe) == Some(
            joined(parent_of(document)->0, asset_name),
        ),
{
}

/// Fallback: an asset that does not exist beside the document resolves to
/// what the index gave, and to nothing where the index gave nothing.
pub proof fn lemma_index_is_the_fallback(
    document: Seq<char>,
    asset_name: Seq<char>,
    probe: AssetProbeView,
)
    requires
        !probe.local_exists,
    ensures
        resolved(document, asset_name, probe) == probe.indexed,
        probe.indexed is None ==> resolved(document, asset_name, probe) is None,
{
}

/// Resolves one asset name for the document at `current_file_path`.
pub fn resolve_image_path(
    current_file_path: &str,
    asset_name: &str,
    probe: AssetProbe,
) -> (path: Option<String>)
    ensures
        opt_view(path) == resolved(current_file_path@, asset_name@, probe@),
{
    match resolve_relative_path(current_file_path, asset_name, probe.local_exists) {
        Some(local) => Some(local),
        None => probe.indexed,
    }
}

/// One asset name of a batch, with what the outside world answered about it.
#[derive(Debug, Clone)]
pub struct AssetRequest {
    pub asset_name: String,
    pub probe: AssetProbe,
}

/// One asset name of a batch, with the path it resolved to.
#[derive(Debug, Clone)]
pub struct AssetResolution {
    pub asset_name: String,
    pub path: Option<String>,
}

/// The names of a batch, in order.
pub open spec fn requested_names(requests: Seq<AssetRequest>) -> Seq<Seq<char>> {
    Seq::new(requests.len(), |i: int| requests[i].asset_name@)
}

/// What the single form gives for each request of a batch, in order.
pub open spec fn resolved_each(document: Seq<char>, requests: Seq<AssetRequest>) -> Seq<
    Option<Seq<char>>,
> {
    Seq::new(
        requests.len(),
        |i: int| resolved(document, requests[i].asset_name@, requests[i].probe@),
    )
}

/// The names of a batch's answers, in order.
pub open spec fn answered_names(answers: Seq<AssetResolution>) -> Seq<Seq<char>> {
    Seq::new(answers.len(), |i: int| answers[i].asset_name@)
}

/// The paths of a batch's answers, in order.
pub open spec fn answered_paths(answers: Seq<AssetResolution>) -> Seq<Option<Seq<char>>> {
    Seq::new(answers.len(), |i: int| opt_view(answers[i].path))
}

/// Resolves many asset names for one document: one answer for each request,
/// in the order of the requests, each the answer of `resolve_image_path`.
pub fn resolve_image_paths_batch(
    current_file_path: &str,
    requests: &Vec<AssetRequest>,
) -> (answers: Vec<AssetResolution>)
    ensures
        answered_names(answers@) == requested_names(requests@),
        answered_paths(answers@) == resolved_each(current_file_path@, requests@),
{
    let mut answers: Vec<AssetResolution> = Vec::new();
    let mut i: usize = 0;
    while i < requests.len()
        invariant
            i <= requests.len(),
            answers.len() == i,
            forall|j: int|
                0 <= j < i ==> (#[trigger] answers@[j]).asset_name@ == requests@[j].asset_name@,
            forall|j: int|
                0 <= j < i ==> opt_view((#[trigger] answers@[j]).path) == resolved(
                    current_file_path@,
                    requests@[j].asset_name@,
                    requests@[j].probe@,
                ),
        decreases requests.len() - i,
    {
        let request = requests[i].duplicate();
        let path = resolve_image_path(
            current_file_path,
            request.asset_name.as_str(),
            request.probe,
        );
        answers.push(AssetResolution { asset_name: request.asset_name, path });
        i = i + 1;
    }
    answers
}

/// The mapping that a batch's answers stand for: each name with the path of
/// its last answer.
pub open spec fn as_mapping(names: Seq<Seq<char>>, paths: Seq<Option<Seq<char>>>) -> Map<
    Seq<char>,
    Option<Seq<char>>,
>
    decreases names.len(),
{
    if names.len() == 0 || paths.len() != names.len() {
        Map::empty()
    } else {
        as_mapping(names.drop_last(), paths.drop_last()).insert(names.last(), paths.last())
    }
}

/// The mapping of a batch has every requested name as a key, and no other.
pub proof fn lemma_mapping_covers_names(names: Seq<Seq<char>>, paths: Seq<Option<Seq<char>>>)
    requires
        names.len() == paths.len(),
    ensures
        forall|name: Seq<char>|
            as_mapping(names, paths).contains_key(name) <==> names.contains(name),
    decreases names.len(),
{
    if names.len() > 0 {
        lemma_mapping_covers_names(names.drop_last(), paths.drop_last());
        assert forall|name: Seq<char>| as_mapping(names, paths).contains_key(name) implies
            names.contains(name) by {
            if name == names.last() {
                assert(names[names.len() - 1] == name);
            } else {
                let front = names.drop_last();
                assert(front.contains(name));
                let i = choose|i: int| 0 <= i < front.len() && front[i] == name;
                assert(names[i] == name);
            }
        }
        assert forall|name: Seq<char>| names.contains(name) implies as_mapping(
            names,
            paths,
        ).contains_key(name) by {
            let i = choose|i: int| 0 <= i < names.len() && names[i] == name;
            if i < names.len() - 1 {
                assert(names.drop_last()[i] == name);
                assert(names.drop_last().contains(name));
                assert(as_mapping(names.drop_last(), paths.drop_last()).contains_key(name));
            } else {
                assert(names.last() == name);
            }
        }
    }
}

/// Batch equivalence: the mapping that the batch form gives is the mapping
/// from each requested name to what the single form gives for it. Where a
/// name is requested more than once with different probes, its last request
/// counts.
pub proof fn lemma_batch_is_single_for_each(
    document: Seq<char>,
    requests: Seq<AssetRequest>,
    name: Seq<char>,
)
    ensures
        as_mapping(
            requested_names(requests),
            resolved_each(document, requests),
        ).contains_key(name) <==> requested_names(requests).contains(name),
        forall|i: int|
            0 <= i < requests.len() && requests[i].asset_name@ == name && (forall|j: int|
                i < j < requests.len() ==> requests[j].asset_name@ != name) ==> as_mapping(
                requested_names(requests),
                resolved_each(document, requests),
            )[name] == resolved(document, name, #[trigger] requests[i].probe@),
    decreases requests.len(),
{
    let names = requested_names(requests);
    let paths = resolved_each(document, requests);
    lemma_mapping_covers_names(names, paths);
    if requests.len() > 0 {
        let front = requests.drop_last();
        assert(requested_names(front) =~= names.drop_last());
        assert(resolved_each(document, front) =~= paths.drop_last());
        lemma_batch_is_single_for_each(document, front, name);
        assert forall|i: int|
            0 <= i < requests.len() && requests[i].asset_name@ == name && (forall|j: int|
                i < j < requests.len() ==> requests[j].asset_name@ != name) implies as_mapping(
            names,
            paths,
        )[name] == resolved(document, name, #[trigger] requests[i].probe@) by {
            if i < requests.len() - 1 {
                assert(front[i] == requests[i]);
                assert(requests[requests.len() - 1].asset_name@ != name);
                assert(names.last() != name);
                assert forall|j: int| i < j < front.len() implies front[j].asset_name@ != name by {
                    assert(front[j] == requests[j]);
                }
            }
        }
    }
}

impl AssetProbe {
    /// A copy of the probe.
    pub fn duplicate(&self) -> (copy: AssetProbe)
        ensures
            copy@ == self@,
    {
        AssetProbe { local_exists: self.local_exists, indexed: self.indexed.clone() }
    }
}

impl AssetRequest {
    /// A copy of the request.
    pub fn duplicate(&self) -> (copy: AssetRequest)
        ensures
            copy.asset_name@ == self.asset_name@,
            copy.probe@ == self.probe@,
    {
        AssetRequest { asset_name: self.asset_name.clone(), probe: self.probe.duplicate() }
    }
}

} // verus!
