//! Per-site outcomes and batch aggregation: each site resolves independently,
//! and one site's failure never disturbs another's entry in the aggregate.

use vstd::prelude::*;

use crate::favicon::{Favicon, FaviconV};
use crate::mime_type::{data_uri_of, generate_data_uri};
use crate::resolver::{is_terminal, ResolveState, StateV};

verus! {

/// Why one site's resolution produced no favicon. Fatal for that site only,
/// never for the batch.
#[derive(Debug)]
pub enum ProcessWebsiteError {
    FaviconNotFound,
}

/// Reads a site's terminal resolution state as its per-site outcome.
pub fn resolution_outcome(state: ResolveState) -> (r: Result<Favicon, ProcessWebsiteError>)
    requires
        is_terminal(state@),
    ensures
        match state@ {
            StateV::Found { favicon } => r matches Ok(f) && f@ == favicon,
            StateV::NotFound => r matches Err(e) && e == ProcessWebsiteError::FaviconNotFound,
            _ => false,
        },
{
    match state {
        ResolveState::Found { favicon } => Ok(favicon),
        _ => Err(ProcessWebsiteError::FaviconNotFound),
    }
}

/// A per-site outcome reduced to what aggregation reads: the favicon if the
/// site resolved, nothing otherwise.
pub open spec fn outcome_views(s: Seq<Result<Favicon, ProcessWebsiteError>>) -> Seq<
    Option<FaviconV>,
> {
    s.map_values(
        |o: Result<Favicon, ProcessWebsiteError>|
            match o {
                Ok(f) => Some(f@),
                Err(_) => None,
            },
    )
}

/// The (site, data URI) pairs a batch yields, in input order: one pair per
/// site whose outcome is a favicon of an encodable kind; failed sites and
/// unknown kinds are skipped silently.
pub open spec fn data_uri_entries(sites: Seq<Seq<char>>, outcomes: Seq<Option<FaviconV>>) -> Seq<
    (Seq<char>, Seq<char>),
>
    decreases sites.len(),
{
    if sites.len() == 0 || outcomes.len() == 0 {
        Seq::empty()
    } else {
        let rest = data_uri_entries(sites.drop_last(), outcomes.drop_last());
        match outcomes.last() {
            Some(f) => match data_uri_of(f) {
                Some(uri) => rest + seq![(sites.last(), uri)],
                None => rest,
            },
            None => rest,
        }
    }
}

/// Combines a batch's per-site outcomes into (site, data URI) pairs. Order is
/// preserved relative to the input list; a site that failed, or whose favicon
/// has an unknown kind, is absent from the result and aborts nothing.
#[verifier::loop_isolation(false)]
pub fn aggregate_results(
    websites: &Vec<String>,
    outcomes: &Vec<Result<Favicon, ProcessWebsiteError>>,
) -> (r: Vec<(String, String)>)
    requires
        websites@.len() == outcomes@.len(),
    ensures
        r.deep_view() == data_uri_entries(websites.deep_view(), outcome_views(outcomes@)),
{
    let ghost sdv = websites.deep_view();
    let ghost odv = outcome_views(outcomes@);
    let n = websites.len();
    let mut r: Vec<(String, String)> = Vec::new();
    proof {
        assert(r.deep_view() =~= data_uri_entries(sdv.take(0), odv.take(0)));
    }
    let mut i: usize = 0;
    while i < n
        invariant
            i <= n,
            r.deep_view() == data_uri_entries(sdv.take(i as int), odv.take(i as int)),
        decreases n - i,
    {
        proof {
            assert(sdv.take(i + 1).drop_last() =~= sdv.take(i as int));
            assert(odv.take(i + 1).drop_last() =~= odv.take(i as int));
            assert(sdv.take(i + 1).last() == sdv[i as int]);
            assert(odv.take(i + 1).last() == odv[i as int]);
        }
        match &outcomes[i] {
            Ok(favicon) => {
                match generate_data_uri(favicon) {
                    Some(uri) => {
                        let site = websites[i].clone();
                        let ghost before = r.deep_view();
                        r.push((site, uri));
                        proof {
                            assert(r.deep_view() =~= before.push((sdv[i as int], uri@)));
                            assert(r.deep_view() =~= data_uri_entries(
                                sdv.take(i + 1),
                                odv.take(i + 1),
                            ));
                        }
                    },
                    None => {
                        proof {
                            assert(r.deep_view() =~= data_uri_entries(
                                sdv.take(i + 1),
                                odv.take(i + 1),
                            ));
                        }
                    },
                }
            },
            Err(_) => {
                proof {
                    assert(r.deep_view() =~= data_uri_entries(sdv.take(i + 1), odv.take(i + 1)));
                }
            },
        }
        i = i + 1;
    }
    proof {
        assert(sdv.take(n as int) =~= sdv);
        assert(odv.take(n as int) =~= odv);
    }
    r
}

/// Law: one site's failure never disturbs another's entry — every site whose
/// outcome is a favicon of an encodable kind contributes its pair to the
/// aggregate, whatever the other sites' outcomes hold.
pub proof fn lemma_success_never_dropped(
    sites: Seq<Seq<char>>,
    outcomes: Seq<Option<FaviconV>>,
    i: int,
    uri: Seq<char>,
)
    requires
        sites.len() == outcomes.len(),
        0 <= i < sites.len(),
        outcomes[i] matches Some(f) && data_uri_of(f) == Some(uri),
    ensures
        data_uri_entries(sites, outcomes).contains((sites[i], uri)),
    decreases sites.len(),
{
    let whole = data_uri_entries(sites, outcomes);
    let rest = data_uri_entries(sites.drop_last(), outcomes.drop_last());
    if i == sites.len() - 1 {
        assert(whole == rest + seq![(sites[i], uri)]);
        assert(whole[whole.len() - 1] == (sites[i], uri));
        assert(whole.contains((sites[i], uri)));
    } else {
        assert(sites.drop_last()[i] == sites[i]);
        assert(outcomes.drop_last()[i] == outcomes[i]);
        lemma_success_never_dropped(sites.drop_last(), outcomes.drop_last(), i, uri);
        let k = choose|k: int| 0 <= k < rest.len() && rest[k] == (sites[i], uri);
        assert(whole == rest || (outcomes.last() matches Some(f) && data_uri_of(f) matches Some(u)
            && whole == rest + seq![(sites.last(), u)]));
        assert(whole[k] == (sites[i], uri));
        assert(whole.contains((sites[i], uri)));
    }
}

} // verus!
