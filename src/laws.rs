use vstd::prelude::*;

use crate::middleware::LogService;
use crate::service::{
    value_of, DeleteItemRequest, GetItemRequest, ItemRequest, ItemResponse, PingRequest, Service,
    ServiceError, SetItemRequest, S,
};
use crate::store::key_views;

verus! {

/// Setting a key twice and then reading it gives the second value.
pub proof fn lemma_overwrite(
    s0: S,
    first: SetItemRequest,
    s1: S,
    r1: Result<ItemResponse, ServiceError>,
    second: SetItemRequest,
    s2: S,
    r2: Result<ItemResponse, ServiceError>,
    get: GetItemRequest,
    s3: S,
    r3: Result<ItemResponse, ServiceError>,
)
    requires
        first.kv.key@ == second.kv.key@,
        get.key@ == second.kv.key@,
        S::serves(s0, ItemRequest::SetItem(first), s1, r1),
        S::serves(s1, ItemRequest::SetItem(second), s2, r2),
        S::serves(s2, ItemRequest::GetItem(get), s3, r3),
    ensures
        match r3 {
            Ok(ItemResponse::GetItem(p)) => p.value@ == second.kv.value@,
            _ => false,
        },
{
}

/// A delete answers the number of distinct listed keys that were present,
/// and afterwards none of the listed keys is present: reading one gives the
/// empty value.
pub proof fn lemma_delete_count(
    pre: S,
    req: DeleteItemRequest,
    post: S,
    r: Result<ItemResponse, ServiceError>,
)
    requires
        S::serves(pre, ItemRequest::DeleteItem(req), post, r),
    ensures
        match r {
            Ok(ItemResponse::DeleteItem(p)) => p.count == key_views(req.keys@).to_set().intersect(
                pre@.dom(),
            ).len(),
            _ => false,
        },
        forall|i: int|
            0 <= i < req.keys@.len() ==> !post@.dom().contains(#[trigger] req.keys@[i]@)
                && value_of(post@, req.keys@[i]@) == Seq::<char>::empty(),
{
    assert forall|i: int| 0 <= i < req.keys@.len() implies !post@.dom().contains(
        #[trigger] req.keys@[i]@,
    ) by {
        assert(key_views(req.keys@)[i] == req.keys@[i]@);
        assert(key_views(req.keys@).to_set().contains(req.keys@[i]@));
    }
}

/// Through the logging layer a ping with a message answers that message.
pub proof fn lemma_ping_echo(
    pre: LogService<S>,
    req: PingRequest,
    post: LogService<S>,
    r: Result<ItemResponse, ServiceError>,
)
    requires
        req.message is Some,
        LogService::<S>::serves(pre, ItemRequest::Ping(req), post, r),
    ensures
        match r {
            Ok(ItemResponse::Ping(p)) => p.message@ == req.message->Some_0@,
            _ => false,
        },
{
}

/// Through the logging layer, over any inner service, a ping without a
/// message is rejected and the inner service is left as it was.
pub proof fn lemma_anonymous_ping_rejected<I: Service>(
    pre: LogService<I>,
    post: LogService<I>,
    r: Result<ItemResponse, ServiceError>,
)
    requires
        LogService::<I>::serves(pre, ItemRequest::Ping(PingRequest { message: None }), post, r),
    ensures
        r == Err::<ItemResponse, ServiceError>(ServiceError::Rejected),
        post == pre,
{
}

/// Reading an absent key succeeds with the empty value.
pub proof fn lemma_missing_key_empty(
    pre: S,
    req: GetItemRequest,
    post: S,
    r: Result<ItemResponse, ServiceError>,
)
    requires
        !pre@.dom().contains(req.key@),
        S::serves(pre, ItemRequest::GetItem(req), post, r),
    ensures
        match r {
            Ok(ItemResponse::GetItem(p)) => p.value@ == Seq::<char>::empty(),
            _ => false,
        },
{
}

/// The map after the given writes, applied in order, each as one `set`.
pub open spec fn apply_sets(
    m: Map<Seq<char>, Seq<char>>,
    writes: Seq<(Seq<char>, Seq<char>)>,
) -> Map<Seq<char>, Seq<char>>
    decreases writes.len(),
{
    if writes.len() == 0 {
        m
    } else {
        apply_sets(m, writes.drop_last()).insert(writes.last().0, writes.last().1)
    }
}

/// However concurrent writes are serialised, every written key is present
/// afterwards and holds exactly one of the values written to it: the one of
/// its last write.
pub proof fn lemma_sets_observable(
    m: Map<Seq<char>, Seq<char>>,
    writes: Seq<(Seq<char>, Seq<char>)>,
    i: int,
)
    requires
        0 <= i < writes.len(),
    ensures
        apply_sets(m, writes).dom().contains(writes[i].0),
        exists|j: int|
            i <= j < writes.len() && writes[j].0 == writes[i].0 && apply_sets(m, writes)[writes[i].0]
                == #[trigger] writes[j].1 && forall|l: int|
                j < l < writes.len() ==> (#[trigger] writes[l]).0 != writes[i].0,
    decreases writes.len(),
{
    let last = writes.len() - 1;
    if i == last {
        assert(apply_sets(m, writes)[writes[i].0] == writes[last].1);
    } else if writes[last].0 == writes[i].0 {
        assert(apply_sets(m, writes)[writes[i].0] == writes[last].1);
    } else {
        let init = writes.drop_last();
        lemma_sets_observable(m, init, i);
        let j = choose|j: int|
            i <= j < init.len() && init[j].0 == init[i].0 && apply_sets(m, init)[init[i].0]
                == #[trigger] init[j].1 && forall|l: int|
                j < l < init.len() ==> (#[trigger] init[l]).0 != init[i].0;
        assert(writes[j] == init[j]);
        assert forall|l: int| j < l < writes.len() implies (#[trigger] writes[l]).0 != writes[i].0 by {
            if l < last {
                assert(writes[l] == init[l]);
            }
        }
    }
}

} // verus!
