use vstd::prelude::*;

use crate::store::{key_views, Kv, Store};

verus! {

pub struct GetItemRequest {
    pub key: String,
}

pub struct GetItemResponse {
    pub value: String,
}

pub struct SetItemRequest {
    pub kv: Kv,
}

pub struct SetItemResponse {
    pub message: String,
}

pub struct DeleteItemRequest {
    pub keys: Vec<String>,
}

pub struct DeleteItemResponse {
    pub count: u64,
}

pub struct PingRequest {
    pub message: Option<String>,
}

pub struct PingResponse {
    pub message: String,
}

pub struct PostItemRequest {
    pub name: String,
}

pub struct PostItemResponse {}

/// A request for one of the five operations.
pub enum ItemRequest {
    GetItem(GetItemRequest),
    PostItem(PostItemRequest),
    SetItem(SetItemRequest),
    DeleteItem(DeleteItemRequest),
    Ping(PingRequest),
}

/// The response of one of the five operations.
pub enum ItemResponse {
    GetItem(GetItemResponse),
    PostItem(PostItemResponse),
    SetItem(SetItemResponse),
    DeleteItem(DeleteItemResponse),
    Ping(PingResponse),
}

/// Why a call through the pipeline failed.
pub enum ServiceError {
    /// A layer refused the request before it reached the service.
    Rejected,
    /// The call could not reach or complete against the service.
    Transport(String),
}

/// What `get` answers for `key`: its value, or the empty string when absent.
pub open spec fn value_of(m: Map<Seq<char>, Seq<char>>, key: Seq<char>) -> Seq<char> {
    if m.dom().contains(key) {
        m[key]
    } else {
        Seq::empty()
    }
}

/// What `ping` answers: the message itself, or "PONG" when there is none.
pub open spec fn ping_answer(message: Option<String>) -> Seq<char> {
    match message {
        Some(m) => m@,
        None => "PONG"@,
    }
}

/// A callable service over item requests, such as the store's service or a
/// layer wrapped around another service.
pub trait Service: Sized {
    /// The state invariant that every call keeps.
    spec fn inv(&self) -> bool;

    /// One call with `req`, from state `pre`, may end in state `post` with result `r`.
    spec fn serves(pre: Self, req: ItemRequest, post: Self, r: Result<ItemResponse, ServiceError>) -> bool;

    /// Handles one request.
    fn call(&mut self, req: ItemRequest) -> (r: Result<ItemResponse, ServiceError>)
        requires
            old(self).inv(),
        ensures
            final(self).inv(),
            Self::serves(*old(self), req, *final(self), r),
    ;
}

/// The item service: the five operations over one store.
pub struct S {
    store: Store,
}

impl View for S {
    type V = Map<Seq<char>, Seq<char>>;

    closed spec fn view(&self) -> Map<Seq<char>, Seq<char>> {
        self.store@
    }
}

impl S {
    /// The store is well formed.
    pub closed spec fn wf(&self) -> bool {
        self.store.wf()
    }

    /// A service over an empty store.
    pub fn new() -> (r: S)
        ensures
            r.wf(),
            r@ == Map::<Seq<char>, Seq<char>>::empty(),
    {
        S { store: Store::new() }
    }

    /// The value under the key, or the empty string when the key is absent.
    pub fn get_item(&self, req: GetItemRequest) -> (r: GetItemResponse)
        requires
            self.wf(),
        ensures
            r.value@ == value_of(self@, req.key@),
    {
        match self.store.get(&req.key) {
            Some(v) => GetItemResponse { value: v },
            None => GetItemResponse { value: String::new() },
        }
    }

    /// Reserved for later use: does nothing and answers an empty response.
    pub fn post_item(&self, _req: PostItemRequest) -> (r: PostItemResponse) {
        PostItemResponse {  }
    }

    /// Stores the record, replacing any earlier value of its key, and acknowledges with "OK".
    pub fn set_item(&mut self, req: SetItemRequest) -> (r: SetItemResponse)
        requires
            old(self).wf(),
        ensures
            final(self).wf(),
            final(self)@ == old(self)@.insert(req.kv.key@, req.kv.value@),
            r.message@ == "OK"@,
    {
        self.store.set(req.kv.key, req.kv.value);
        SetItemResponse { message: String::from_str("OK") }
    }

    /// Removes the listed keys and counts the distinct ones that were present.
    pub fn delete_item(&mut self, req: DeleteItemRequest) -> (r: DeleteItemResponse)
        requires
            old(self).wf(),
        ensures
            final(self).wf(),
            final(self)@ == old(self)@.remove_keys(key_views(req.keys@).to_set()),
            r.count == key_views(req.keys@).to_set().intersect(old(self)@.dom()).len(),
    {
        let count = self.store.delete(&req.keys);
        DeleteItemResponse { count }
    }

    /// Echoes the message, or answers "PONG" when there is none.
    pub fn ping(&self, req: PingRequest) -> (r: PingResponse)
        ensures
            r.message@ == ping_answer(req.message),
    {
        match req.message {
            Some(v) => PingResponse { message: v },
            None => PingResponse { message: String::from_str("PONG") },
        }
    }
}

impl Service for S {
    open spec fn inv(&self) -> bool {
        self.wf()
    }

    open spec fn serves(pre: S, req: ItemRequest, post: S, r: Result<ItemResponse, ServiceError>) -> bool {
        match req {
            ItemRequest::GetItem(q) => post@ == pre@ && match r {
                Ok(ItemResponse::GetItem(p)) => p.value@ == value_of(pre@, q.key@),
                _ => false,
            },
            ItemRequest::PostItem(q) => post@ == pre@ && r is Ok && r->Ok_0 is PostItem,
            ItemRequest::SetItem(q) => post@ == pre@.insert(q.kv.key@, q.kv.value@) && match r {
                Ok(ItemResponse::SetItem(p)) => p.message@ == "OK"@,
                _ => false,
            },
            ItemRequest::DeleteItem(q) => {
                let ks = key_views(q.keys@).to_set();
                post@ == pre@.remove_keys(ks) && match r {
                    Ok(ItemResponse::DeleteItem(p)) => p.count == ks.intersect(pre@.dom()).len(),
                    _ => false,
                }
            },
            ItemRequest::Ping(q) => post@ == pre@ && match r {
                Ok(ItemResponse::Ping(p)) => p.message@ == ping_answer(q.message),
                _ => false,
            },
        }
    }

    fn call(&mut self, req: ItemRequest) -> (r: Result<ItemResponse, ServiceError>) {
        match req {
            ItemRequest::GetItem(q) => Ok(ItemResponse::GetItem(self.get_item(q))),
            ItemRequest::PostItem(q) => Ok(ItemResponse::PostItem(self.post_item(q))),
            ItemRequest::SetItem(q) => Ok(ItemResponse::SetItem(self.set_item(q))),
            ItemRequest::DeleteItem(q) => Ok(ItemResponse::DeleteItem(self.delete_item(q))),
            ItemRequest::Ping(q) => Ok(ItemResponse::Ping(self.ping(q))),
        }
    }
}

} // verus!
