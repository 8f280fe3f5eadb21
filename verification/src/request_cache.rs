//! The bounded memory of answered requests.

use crate::control_response::{ControlResponse, ResponseView};
use std::collections::VecDeque;
use vstd::hash_map::StringHashMap;
use vstd::prelude::*;

verus! {

/// The number of answers that the cache remembers.
pub const REQUEST_CACHE_CAPACITY: usize = 2048;

/// The most recent answers, by request id.
pub struct RequestCache {
    order: VecDeque<String>,
    entries: StringHashMap<ControlResponse>,
}

/// The content of a cache: its ids from the oldest to the newest, and the answer to each.
#[verifier::ext_equal]
pub struct CacheView {
    pub order: Seq<Seq<char>>,
    pub entries: Map<Seq<char>, ResponseView>,
}

impl CacheView {
    /// The content of a new cache.
    pub open spec fn empty() -> CacheView {
        CacheView { order: Seq::empty(), entries: Map::empty() }
    }

    /// Each id stands in the order once and has an answer, and the bound is kept.
    pub open spec fn wf(self) -> bool {
        &&& self.order.no_duplicates()
        &&& forall|id: Seq<char>| self.entries.contains_key(id) <==> self.order.contains(id)
        &&& self.order.len() <= REQUEST_CACHE_CAPACITY
    }

    /// The content after an answer was recorded: a known id keeps its place, a new one comes
    /// last, and the oldest leaves where the bound would be passed.
    pub open spec fn inserted(self, id: Seq<char>, response: ResponseView) -> CacheView {
        let entries = self.entries.insert(id, response);
        if self.entries.contains_key(id) {
            CacheView { order: self.order, entries }
        } else {
            let order = self.order.push(id);
            if order.len() > REQUEST_CACHE_CAPACITY {
                CacheView { order: order.drop_first(), entries: entries.remove(order[0]) }
            } else {
                CacheView { order, entries }
            }
        }
    }
}

/// A recorded answer is found again, and at most one other answer, the oldest, is lost for it.
pub proof fn law_inserted_answer_is_found(cache: CacheView, id: Seq<char>, response: ResponseView)
    requires
        cache.wf(),
    ensures
        cache.inserted(id, response).wf(),
        cache.inserted(id, response).entries.contains_key(id),
        cache.inserted(id, response).entries[id] == response,
        forall|other: Seq<char>|
            other != id && cache.entries.contains_key(other) && !(cache.order.len()
                == REQUEST_CACHE_CAPACITY && !cache.entries.contains_key(id) && other
                == cache.order[0]) ==> #[trigger] cache.inserted(id, response).entries.contains_key(
                other,
            ) && cache.inserted(id, response).entries[other] == cache.entries[other],
        forall|other: Seq<char>| #[trigger]
            cache.inserted(id, response).entries.contains_key(other) ==> other == id
                || cache.entries.contains_key(other),
{
    let after = cache.inserted(id, response);
    if !cache.entries.contains_key(id) {
        let pushed = cache.order.push(id);
        assert(pushed.no_duplicates()) by {
            assert forall|i: int, j: int|
                0 <= i < pushed.len() && 0 <= j < pushed.len() && i != j implies pushed[i]
                != pushed[j] by {
                if i == cache.order.len() {
                    assert(cache.order.contains(pushed[j]));
                } else if j == cache.order.len() {
                    assert(cache.order.contains(pushed[i]));
                }
            }
        }
        assert forall|other: Seq<char>| pushed.contains(other) <==> (cache.order.contains(other)
            || other == id) by {
            if cache.order.contains(other) {
                let i = cache.order.index_of(other);
                assert(pushed[i] == other);
            }
            if other == id {
                assert(pushed[cache.order.len() as int] == id);
            }
        }
        if pushed.len() > REQUEST_CACHE_CAPACITY {
            let kept = pushed.drop_first();
            assert(kept.last() == id);
            assert forall|other: Seq<char>| kept.contains(other) <==> (pushed.contains(other)
                && other != pushed[0]) by {
                if kept.contains(other) {
                    let i = kept.index_of(other);
                    assert(pushed[i + 1] == other);
                }
                if pushed.contains(other) && other != pushed[0] {
                    let i = pushed.index_of(other);
                    assert(kept[i - 1] == other);
                }
            }
            assert(kept.no_duplicates());
        }
    }
}

/// Recording the answer to a known id neither adds nor drops an id.
pub proof fn law_known_id_keeps_its_place(cache: CacheView, id: Seq<char>, response: ResponseView)
    requires
        cache.wf(),
        cache.entries.contains_key(id),
    ensures
        cache.inserted(id, response).order == cache.order,
        cache.inserted(id, response).entries == cache.entries.insert(id, response),
{
}

/// When the cache is full, a new id drives out the id that came first.
pub proof fn law_oldest_leaves_first(cache: CacheView, id: Seq<char>, response: ResponseView)
    requires
        cache.wf(),
        cache.order.len() == REQUEST_CACHE_CAPACITY,
        !cache.entries.contains_key(id),
    ensures
        !cache.inserted(id, response).entries.contains_key(cache.order[0]),
        cache.inserted(id, response).order == cache.order.drop_first().push(id),
{
    assert(cache.inserted(id, response).order =~= cache.order.drop_first().push(id));
    assert(cache.order.contains(cache.order[0]));
}

/// The cache remembers 2048 answers: up to there a new one is added behind the others, which all
/// stay, and beyond it the oldest makes room.
pub proof fn law_cache_remembers_two_thousand_and_forty_eight(
    cache: CacheView,
    id: Seq<char>,
    response: ResponseView,
)
    requires
        cache.wf(),
        !cache.entries.contains_key(id),
    ensures
        cache.order.len() <= 2048,
        cache.order.len() < 2048 ==> {
            &&& cache.inserted(id, response).order == cache.order.push(id)
            &&& cache.inserted(id, response).entries == cache.entries.insert(id, response)
        },
        cache.order.len() == 2048 ==> {
            &&& cache.inserted(id, response).order == cache.order.skip(1).push(id)
            &&& cache.inserted(id, response).entries == cache.entries.remove(
                cache.order[0],
            ).insert(id, response)
        },
{
    if cache.order.len() == 2048 {
        assert(cache.order.contains(cache.order[0]));
        assert(cache.inserted(id, response).order =~= cache.order.skip(1).push(id));
        assert(cache.inserted(id, response).entries =~= cache.entries.remove(
            cache.order[0],
        ).insert(id, response));
    }
}

/// The number of ids that came in after a remembered one.
pub open spec fn newer_ids(cache: CacheView, id: Seq<char>) -> int {
    cache.order.len() - 1 - cache.order.index_of(id)
}

/// An answer is remembered until as many newer ids came in as the cache holds: another answer keeps
/// it, and adds to the newer ids only if its own id is new.
pub proof fn law_answers_last_while_few_are_newer(
    cache: CacheView,
    id: Seq<char>,
    other: Seq<char>,
    response: ResponseView,
)
    requires
        cache.wf(),
        cache.entries.contains_key(id),
        other != id,
        !cache.entries.contains_key(other) ==> newer_ids(cache, id) + 1 < REQUEST_CACHE_CAPACITY,
    ensures
        cache.inserted(other, response).wf(),
        cache.inserted(other, response).entries.contains_key(id),
        cache.inserted(other, response).entries[id] == cache.entries[id],
        newer_ids(cache.inserted(other, response), id) == newer_ids(cache, id) + if cache
            .entries.contains_key(other) {
            0int
        } else {
            1int
        },
{
    let after = cache.inserted(other, response);
    law_inserted_answer_is_found(cache, other, response);
    assert(cache.order.contains(id));
    let p = cache.order.index_of(id);
    assert(cache.order[p] == id);
    if !cache.entries.contains_key(other) {
        let pushed = cache.order.push(other);
        assert(pushed[p] == id);
        if pushed.len() > REQUEST_CACHE_CAPACITY {
            assert(p > 0);
            assert(cache.order[0] != id);
            assert(after.order[p - 1] == id);
        } else {
            assert(after.order[p] == id);
        }
        assert(after.entries.contains_key(id));
        assert(after.order.contains(id));
        assert(after.order[after.order.index_of(id)] == id);
    }
}

/// The answer that came in last is remembered with no newer ids.
pub proof fn law_new_answer_is_the_newest(cache: CacheView, id: Seq<char>, response: ResponseView)
    requires
        cache.wf(),
        !cache.entries.contains_key(id),
    ensures
        newer_ids(cache.inserted(id, response), id) == 0,
{
    let after = cache.inserted(id, response);
    law_inserted_answer_is_found(cache, id, response);
    assert(after.order.last() == id);
    assert(after.order.contains(id));
    assert(after.order[after.order.index_of(id)] == id);
}

impl View for RequestCache {
    type V = CacheView;

    closed spec fn view(&self) -> CacheView {
        CacheView {
            order: self.order@.map_values(|id: String| id@),
            entries: self.entries@.map_values(|response: ControlResponse| response@),
        }
    }
}

impl RequestCache {
    /// What every operation keeps.
    pub open spec fn wf(self) -> bool {
        self@.wf()
    }

    /// An empty cache.
    pub fn new() -> (r: RequestCache)
        ensures
            r.wf(),
            r@ == CacheView::empty(),
    {
        let r = RequestCache { order: VecDeque::new(), entries: StringHashMap::new() };
        assert(r@ =~= CacheView::empty());
        r
    }

    /// The recorded answer to a request, if it is still remembered.
    pub fn get(&self, request_id: &str) -> (r: Option<ControlResponse>)
        ensures
            r is Some <==> self@.entries.contains_key(request_id@),
            r matches Some(response) ==> response@ == self@.entries[request_id@],
    {
        match self.entries.get(request_id) {
            Some(response) => Some(response.clone()),
            None => None,
        }
    }

    /// Records the answer to a request.
    pub fn insert(&mut self, request_id: String, response: ControlResponse)
        requires
            old(self).wf(),
        ensures
            final(self).wf(),
            final(self)@ == old(self)@.inserted(request_id@, response@),
    {
        let ghost id = request_id@;
        let ghost answer = response@;
        proof {
            law_inserted_answer_is_found(old(self)@, id, answer);
        }
        if self.entries.contains_key(request_id.as_str()) {
            self.entries.insert(request_id, response);
            assert(self@ =~= old(self)@.inserted(id, answer));
        } else {
            self.order.push_back(request_id.clone());
            self.entries.insert(request_id, response);
            let ghost pushed = self@;
            assert(pushed.order =~= old(self)@.order.push(id));
            assert(pushed.entries =~= old(self)@.entries.insert(id, answer));
            while self.order.len() > REQUEST_CACHE_CAPACITY
                invariant
                    old(self).wf(),
                    pushed.order == old(self)@.order.push(id),
                    pushed.entries == old(self)@.entries.insert(id, answer),
                    self@.order.len() <= REQUEST_CACHE_CAPACITY ==> self@ == (
                    if pushed.order.len() > REQUEST_CACHE_CAPACITY {
                        CacheView {
                            order: pushed.order.drop_first(),
                            entries: pushed.entries.remove(pushed.order[0]),
                        }
                    } else {
                        pushed
                    }),
                    self@.order.len() > REQUEST_CACHE_CAPACITY ==> self@ == pushed,
                decreases self@.order.len(),
            {
                let ghost before = *self;
                if let Some(oldest) = self.order.pop_front() {
                    self.entries.remove(oldest.as_str());
                    assert(oldest@ == before@.order[0]);
                    assert(self@.order =~= before@.order.drop_first());
                    assert(self@.entries =~= before@.entries.remove(before@.order[0]));
                }
            }
            assert(self@.order.len() == self.order@.len());
        }
    }
}

impl Default for RequestCache {
    fn default() -> (r: Self)
        ensures
            r.wf(),
            r@ == CacheView::empty(),
    {
        RequestCache::new()
    }
}

} // verus!
