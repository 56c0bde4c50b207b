//! Requests: a request is recorded when it starts and amended, by its id,
//! when it completes or fails.

use crate::state::keyed::{index_of, keys_of, lemma_index_from, position};
use crate::state::model::{ApiRequest, ApiRequestView, DashboardState, DashboardStateView};
use vstd::prelude::*;

verus! {

/// What the end of a request changes in its record.
pub struct RequestChange {
    pub duration_ms: Option<u64>,
    /// The name of the entry, where the end of the request tells it.
    pub entry_name: Option<String>,
    /// Whether the request failed; `None` leaves the record as it is.
    pub is_error: Option<bool>,
    /// Why the request failed, or that nothing is known of it; `None`
    /// leaves the record as it is.
    pub error_message: Option<Option<String>>,
}

/// The mathematical value of a [`RequestChange`].
pub struct RequestChangeView {
    pub duration_ms: Option<u64>,
    pub entry_name: Option<Seq<char>>,
    pub is_error: Option<bool>,
    pub error_message: Option<Option<Seq<char>>>,
}

impl View for RequestChange {
    type V = RequestChangeView;

    open spec fn view(&self) -> RequestChangeView {
        RequestChangeView {
            duration_ms: self.duration_ms,
            entry_name: self.entry_name.deep_view(),
            is_error: self.is_error,
            error_message: self.error_message.deep_view(),
        }
    }
}

/// The record of a request after its end: the later name of its entry
/// stands where there is one, else the earlier one.
pub open spec fn amended(request: ApiRequestView, change: RequestChangeView) -> ApiRequestView {
    ApiRequestView {
        duration_ms: change.duration_ms,
        entry_name: if change.entry_name is Some {
            change.entry_name
        } else {
            request.entry_name
        },
        is_error: match change.is_error {
            Some(e) => e,
            None => request.is_error,
        },
        error_message: match change.error_message {
            Some(m) => m,
            None => request.error_message,
        },
        ..request
    }
}

/// The requests after the one of the id ended: the first request of the id
/// is amended; without an id, or without a request of the id, nothing changes.
pub open spec fn requests_amended(
    requests: Seq<ApiRequestView>,
    id: Option<Seq<char>>,
    change: RequestChangeView,
) -> Seq<ApiRequestView> {
    match id {
        Some(id) => match index_of(keys_of::<ApiRequest>(requests), id) {
            Some(i) => requests.update(i, amended(requests[i], change)),
            None => requests,
        },
        None => requests,
    }
}

/// The name of the entry that a request ended with: that of its record after
/// the end, or that of the end itself where there is no record.
pub open spec fn ended_entry_name(
    requests: Seq<ApiRequestView>,
    id: Option<Seq<char>>,
    change: RequestChangeView,
) -> Option<Seq<char>> {
    match id {
        Some(id) => match index_of(keys_of::<ApiRequest>(requests), id) {
            Some(i) => amended(requests[i], change).entry_name,
            None => change.entry_name,
        },
        None => change.entry_name,
    }
}

/// The first request of the id, if there is one.
pub open spec fn request_of(requests: Seq<ApiRequestView>, id: Seq<char>) -> Option<
    ApiRequestView,
> {
    match index_of(keys_of::<ApiRequest>(requests), id) {
        Some(i) => Some(requests[i]),
        None => None,
    }
}

impl DashboardStateView {
    /// The state after a request started.
    pub open spec fn request_started(self, request: ApiRequestView) -> DashboardStateView {
        DashboardStateView { requests: self.requests.push(request), ..self }
    }

    /// The state after the request of the id ended.
    pub open spec fn request_ended(
        self,
        id: Option<Seq<char>>,
        change: RequestChangeView,
    ) -> DashboardStateView {
        DashboardStateView { requests: requests_amended(self.requests, id, change), ..self }
    }
}

/// When a request starts under an id that no earlier request has, and then
/// ends under that id, its record names the entry that the end names, or,
/// where the end names none, the entry that the start named. The end adds
/// no record.
pub proof fn lemma_later_entry_name_wins(
    s: DashboardStateView,
    request: ApiRequestView,
    change: RequestChangeView,
)
    requires
        request_of(s.requests, request.id) is None,
    ensures
        ({
            let after = s.request_started(request).request_ended(Some(request.id), change);
            &&& after.requests.len() == s.requests.len() + 1
            &&& request_of(after.requests, request.id) is Some
            &&& request_of(after.requests, request.id).unwrap().entry_name == if change.entry_name is Some {
                change.entry_name
            } else {
                request.entry_name
            }
            &&& ended_entry_name(s.request_started(request).requests, Some(request.id), change)
                == request_of(after.requests, request.id).unwrap().entry_name
        }),
{
    let started = s.requests.push(request);
    let keys = keys_of::<ApiRequest>(s.requests);
    assert(keys_of::<ApiRequest>(started) =~= keys.push(request.id));
    lemma_index_from(keys, request.id, 0);
    lemma_index_from(keys.push(request.id), request.id, 0);
    match index_of(keys.push(request.id), request.id) {
        Some(k) => {
            if k < keys.len() {
                assert(keys[k] == keys.push(request.id)[k]);
            }
            let after = started.update(k, amended(started[k], change));
            assert(keys_of::<ApiRequest>(after) =~= keys.push(request.id));
        },
        None => {
            assert(keys.push(request.id)[keys.len() as int] == request.id);
        },
    }
}

/// The end of a request under an id that no request has changes no record.
pub proof fn lemma_unseen_end_changes_nothing(
    s: DashboardStateView,
    id: Seq<char>,
    change: RequestChangeView,
)
    requires
        request_of(s.requests, id) is None,
    ensures
        s.request_ended(Some(id), change) == s,
        s.request_ended(None, change) == s,
{
}

impl DashboardState {
    /// Records a request that started.
    pub fn start_request(&mut self, request: ApiRequest)
        ensures
            final(self)@ == old(self)@.request_started(request@),
    {
        let ghost requests = self.requests.deep_view();
        let ghost r = request@;
        self.requests.push(request);
        assert(self.requests.deep_view() =~= requests.push(r));
    }

    /// Amends the record of the request that ended, and says which entry
    /// the request ended with.
    pub fn end_request(&mut self, id: &Option<String>, change: RequestChange) -> (name: Option<
        String,
    >)
        ensures
            final(self)@ == old(self)@.request_ended(id.deep_view(), change@),
            name.deep_view() == ended_entry_name(old(self)@.requests, id.deep_view(), change@),
    {
        let ghost requests = self.requests.deep_view();
        match id {
            Some(rid) => match position(&self.requests, rid.as_str()) {
                Some(i) => {
                    let mut request = self.requests.remove(i);
                    let ghost r0 = request@;
                    request.duration_ms = change.duration_ms;
                    match change.entry_name {
                        Some(n) => {
                            request.entry_name = Some(n);
                        },
                        None => {},
                    }
                    match change.is_error {
                        Some(e) => {
                            request.is_error = e;
                        },
                        None => {},
                    }
                    match change.error_message {
                        Some(m) => {
                            request.error_message = m;
                        },
                        None => {},
                    }
                    let name = request.entry_name.clone();
                    assert(request@ == amended(r0, change@));
                    self.requests.insert(i, request);
                    assert(self.requests.deep_view() =~= requests_amended(
                        requests,
                        id.deep_view(),
                        change@,
                    ));
                    name
                },
                None => change.entry_name,
            },
            None => change.entry_name,
        }
    }
}

} // verus!
