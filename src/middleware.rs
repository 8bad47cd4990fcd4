use vstd::prelude::*;

use crate::service::{ItemRequest, ItemResponse, PingRequest, Service, ServiceError};

verus! {

/// The rejection rule: a ping that carries no message is refused.
pub open spec fn rejects(req: ItemRequest) -> bool {
    match req {
        ItemRequest::Ping(p) => p.message is None,
        _ => false,
    }
}

fn is_anonymous_ping(req: &ItemRequest) -> (r: bool)
    ensures
        r == rejects(*req),
{
    match req {
        ItemRequest::Ping(PingRequest { message: None }) => true,
        _ => false,
    }
}

/// A layer around an inner service: it refuses anonymous pings without
/// reaching the inner service, and hands every other request inward,
/// returning the inner result unchanged.
pub struct LogService<I>(pub I);

impl<I: Service> Service for LogService<I> {
    open spec fn inv(&self) -> bool {
        self.0.inv()
    }

    open spec fn serves(
        pre: LogService<I>,
        req: ItemRequest,
        post: LogService<I>,
        r: Result<ItemResponse, ServiceError>,
    ) -> bool {
        if rejects(req) {
            post == pre && r == Err::<ItemResponse, ServiceError>(ServiceError::Rejected)
        } else {
            I::serves(pre.0, req, post.0, r)
        }
    }

    fn call(&mut self, req: ItemRequest) -> (r: Result<ItemResponse, ServiceError>) {
        if is_anonymous_ping(&req) {
            return Err(ServiceError::Rejected);
        }
        self.0.call(req)
    }
}

/// Wraps a service in a `LogService`.
pub struct LogLayer;

impl LogLayer {
    pub fn layer<I>(self, inner: I) -> (r: LogService<I>)
        ensures
            r.0 == inner,
    {
        LogService(inner)
    }
}

} // verus!
