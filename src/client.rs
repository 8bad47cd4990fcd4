use vstd::prelude::*;

use crate::service::{
    DeleteItemRequest, DeleteItemResponse, GetItemRequest, GetItemResponse, ItemRequest,
    ItemResponse, PingRequest, PingResponse, Service, ServiceError, SetItemRequest,
    SetItemResponse,
};
use crate::store::Kv;

verus! {

// Each call below answers the default response (an empty string, or a zero
// count) where the pipeline fails.

pub open spec fn got_value(r: Result<ItemResponse, ServiceError>) -> Seq<char> {
    match r {
        Ok(ItemResponse::GetItem(p)) => p.value@,
        _ => Seq::empty(),
    }
}

pub open spec fn set_message(r: Result<ItemResponse, ServiceError>) -> Seq<char> {
    match r {
        Ok(ItemResponse::SetItem(p)) => p.message@,
        _ => Seq::empty(),
    }
}

pub open spec fn deleted_count(r: Result<ItemResponse, ServiceError>) -> u64 {
    match r {
        Ok(ItemResponse::DeleteItem(p)) => p.count,
        _ => 0,
    }
}

pub open spec fn ping_message(r: Result<ItemResponse, ServiceError>) -> Seq<char> {
    match r {
        Ok(ItemResponse::Ping(p)) => p.message@,
        _ => Seq::empty(),
    }
}

/// Looks `key` up through the pipeline.
pub fn get_item<P: Service>(pipeline: &mut P, key: String) -> (g: GetItemResponse)
    requires
        old(pipeline).inv(),
    ensures
        final(pipeline).inv(),
        exists|r: Result<ItemResponse, ServiceError>|
            P::serves(
                *old(pipeline),
                ItemRequest::GetItem((GetItemRequest { key: key })),
                *final(pipeline),
                r,
            ) && g.value@ == got_value(r),
{
    let r = pipeline.call(ItemRequest::GetItem(GetItemRequest { key }));
    let ghost witness = r;
    let out = match r {
        Ok(ItemResponse::GetItem(p)) => p,
        _ => GetItemResponse { value: String::new() },
    };
    assert(out.value@ == got_value(witness));
    out
}

/// Stores `value` under `key` through the pipeline.
pub fn set_item<P: Service>(pipeline: &mut P, key: String, value: String) -> (s: SetItemResponse)
    requires
        old(pipeline).inv(),
    ensures
        final(pipeline).inv(),
        exists|r: Result<ItemResponse, ServiceError>|
            P::serves(
                *old(pipeline),
                ItemRequest::SetItem((SetItemRequest { kv: Kv { key: key, value: value } })),
                *final(pipeline),
                r,
            ) && s.message@ == set_message(r),
{
    let r = pipeline.call(ItemRequest::SetItem(SetItemRequest { kv: Kv { key, value } }));
    let ghost witness = r;
    let out = match r {
        Ok(ItemResponse::SetItem(p)) => p,
        _ => SetItemResponse { message: String::new() },
    };
    assert(out.message@ == set_message(witness));
    out
}

/// Deletes `keys` through the pipeline.
pub fn delete_item<P: Service>(pipeline: &mut P, keys: Vec<String>) -> (d: DeleteItemResponse)
    requires
        old(pipeline).inv(),
    ensures
        final(pipeline).inv(),
        exists|r: Result<ItemResponse, ServiceError>|
            P::serves(
                *old(pipeline),
                ItemRequest::DeleteItem((DeleteItemRequest { keys: keys })),
                *final(pipeline),
                r,
            ) && d.count == deleted_count(r),
{
    let r = pipeline.call(ItemRequest::DeleteItem(DeleteItemRequest { keys }));
    let ghost witness = r;
    let out = match r {
        Ok(ItemResponse::DeleteItem(p)) => p,
        _ => DeleteItemResponse { count: 0 },
    };
    assert(out.count == deleted_count(witness));
    out
}

/// Pings through the pipeline, with or without a message.
pub fn ping<P: Service>(pipeline: &mut P, message: Option<String>) -> (p: PingResponse)
    requires
        old(pipeline).inv(),
    ensures
        final(pipeline).inv(),
        exists|r: Result<ItemResponse, ServiceError>|
            P::serves(
                *old(pipeline),
                ItemRequest::Ping((PingRequest { message: message })),
                *final(pipeline),
                r,
            ) && p.message@ == ping_message(r),
{
    let r = pipeline.call(ItemRequest::Ping(PingRequest { message }));
    let ghost witness = r;
    let out = match r {
        Ok(ItemResponse::Ping(p)) => p,
        _ => PingResponse { message: String::new() },
    };
    assert(out.message@ == ping_message(witness));
    out
}

} // verus!
