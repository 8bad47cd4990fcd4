use vstd::prelude::*;

use crate::service::{
    DeleteItemRequest, GetItemRequest, ItemRequest, ItemResponse, PingRequest, Service,
    ServiceError, SetItemRequest,
};
use crate::store::Kv;

verus! {

pub const STATUS_OK: u16 = 200;

pub const STATUS_ERROR: u16 = 500;

/// How the body of a reply is sent.
#[derive(PartialEq, Eq, Structural, Clone, Copy, Debug)]
pub enum BodyKind {
    /// Plain text.
    Text,
    /// The JSON object `{"value": body}`.
    Json,
}

/// An HTTP reply: a status code and a body.
pub struct HttpReply {
    pub status: u16,
    pub kind: BodyKind,
    pub body: String,
}

impl View for HttpReply {
    type V = (u16, BodyKind, Seq<char>);

    open spec fn view(&self) -> (u16, BodyKind, Seq<char>) {
        (self.status, self.kind, self.body@)
    }
}

pub open spec fn digit_char(d: nat) -> char {
    if d == 0 {
        '0'
    } else if d == 1 {
        '1'
    } else if d == 2 {
        '2'
    } else if d == 3 {
        '3'
    } else if d == 4 {
        '4'
    } else if d == 5 {
        '5'
    } else if d == 6 {
        '6'
    } else if d == 7 {
        '7'
    } else if d == 8 {
        '8'
    } else {
        '9'
    }
}

/// The decimal digits of `n`, most significant first, without leading zeros.
pub open spec fn decimal(n: nat) -> Seq<char>
    decreases n,
{
    if n < 10 {
        seq![digit_char(n)]
    } else {
        decimal(n / 10) + seq![digit_char(n % 10)]
    }
}

fn digit_text(d: u64) -> (r: &'static str)
    requires
        d < 10,
    ensures
        r@ == seq![digit_char(d as nat)],
{
    proof {
        reveal_strlit("0");
        reveal_strlit("1");
        reveal_strlit("2");
        reveal_strlit("3");
        reveal_strlit("4");
        reveal_strlit("5");
        reveal_strlit("6");
        reveal_strlit("7");
        reveal_strlit("8");
        reveal_strlit("9");
    }
    let r = if d == 0 {
        "0"
    } else if d == 1 {
        "1"
    } else if d == 2 {
        "2"
    } else if d == 3 {
        "3"
    } else if d == 4 {
        "4"
    } else if d == 5 {
        "5"
    } else if d == 6 {
        "6"
    } else if d == 7 {
        "7"
    } else if d == 8 {
        "8"
    } else {
        "9"
    };
    assert(r@ =~= seq![digit_char(d as nat)]);
    r
}

/// Appends the decimal digits of `n`.
fn push_decimal(s: &mut String, n: u64)
    ensures
        final(s)@ == old(s)@ + decimal(n as nat),
    decreases n,
{
    if n >= 10 {
        push_decimal(s, n / 10);
    }
    s.append(digit_text(n % 10));
    proof {
        if n < 10 {
            assert(n % 10 == n);
        }
        assert(final(s)@ =~= old(s)@ + decimal(n as nat));
    }
}

/// The decimal text of `n`.
pub fn decimal_text(n: u64) -> (r: String)
    ensures
        r@ == decimal(n as nat),
{
    let mut s = String::new();
    push_decimal(&mut s, n);
    assert(s@ =~= decimal(n as nat));
    s
}

pub open spec fn ping_reply_view(r: Result<ItemResponse, ServiceError>) -> (u16, BodyKind, Seq<char>) {
    match r {
        Ok(ItemResponse::Ping(p)) => (200, BodyKind::Text, p.message@),
        _ => (500, BodyKind::Text, Seq::empty()),
    }
}

pub open spec fn get_reply_view(r: Result<ItemResponse, ServiceError>) -> (u16, BodyKind, Seq<char>) {
    match r {
        Ok(ItemResponse::GetItem(p)) => (200, BodyKind::Json, p.value@),
        _ => (500, BodyKind::Json, "error"@),
    }
}

pub open spec fn set_reply_view(r: Result<ItemResponse, ServiceError>) -> (u16, BodyKind, Seq<char>) {
    match r {
        Ok(ItemResponse::SetItem(_)) => (200, BodyKind::Text, "set ok"@),
        _ => (500, BodyKind::Text, "set error"@),
    }
}

pub open spec fn delete_reply_view(r: Result<ItemResponse, ServiceError>) -> (u16, BodyKind, Seq<char>) {
    match r {
        Ok(ItemResponse::DeleteItem(p)) => (
            200,
            BodyKind::Text,
            "delete "@ + decimal(p.count as nat) + " items"@,
        ),
        _ => (500, BodyKind::Text, "delete error"@),
    }
}

/// The reply to `POST /ping`: the answered message, or status 500 with an
/// empty body when the pipeline fails (as it does for the anonymous ping).
pub fn ping_reply(r: Result<ItemResponse, ServiceError>) -> (h: HttpReply)
    ensures
        h@ == ping_reply_view(r),
{
    match r {
        Ok(ItemResponse::Ping(p)) => HttpReply {
            status: STATUS_OK,
            kind: BodyKind::Text,
            body: p.message,
        },
        _ => HttpReply { status: STATUS_ERROR, kind: BodyKind::Text, body: String::new() },
    }
}

/// The reply to `POST /get/{key}`: `{"value": ..}`, or `{"value": "error"}` on failure.
pub fn get_reply(r: Result<ItemResponse, ServiceError>) -> (h: HttpReply)
    ensures
        h@ == get_reply_view(r),
{
    match r {
        Ok(ItemResponse::GetItem(p)) => HttpReply {
            status: STATUS_OK,
            kind: BodyKind::Json,
            body: p.value,
        },
        _ => HttpReply {
            status: STATUS_ERROR,
            kind: BodyKind::Json,
            body: String::from_str("error"),
        },
    }
}

/// The reply to `POST /set`: "set ok", or "set error" on failure.
pub fn set_reply(r: Result<ItemResponse, ServiceError>) -> (h: HttpReply)
    ensures
        h@ == set_reply_view(r),
{
    match r {
        Ok(ItemResponse::SetItem(_)) => HttpReply {
            status: STATUS_OK,
            kind: BodyKind::Text,
            body: String::from_str("set ok"),
        },
        _ => HttpReply {
            status: STATUS_ERROR,
            kind: BodyKind::Text,
            body: String::from_str("set error"),
        },
    }
}

/// The reply to `POST /delete`: "delete {count} items", or "delete error" on failure.
pub fn delete_reply(r: Result<ItemResponse, ServiceError>) -> (h: HttpReply)
    ensures
        h@ == delete_reply_view(r),
{
    match r {
        Ok(ItemResponse::DeleteItem(p)) => {
            let mut body = String::from_str("delete ");
            body.append(decimal_text(p.count).as_str());
            body.append(" items");
            HttpReply { status: STATUS_OK, kind: BodyKind::Text, body }
        },
        _ => HttpReply {
            status: STATUS_ERROR,
            kind: BodyKind::Text,
            body: String::from_str("delete error"),
        },
    }
}

/// `POST /ping`: sends a ping without a message through the pipeline.
pub fn handle_ping<P: Service>(pipeline: &mut P) -> (h: HttpReply)
    requires
        old(pipeline).inv(),
    ensures
        final(pipeline).inv(),
        exists|r: Result<ItemResponse, ServiceError>|
            P::serves(
                *old(pipeline),
                ItemRequest::Ping((PingRequest { message: None })),
                *final(pipeline),
                r,
            ) && h@ == ping_reply_view(r),
{
    let r = pipeline.call(ItemRequest::Ping(PingRequest { message: None }));
    ping_reply(r)
}

/// `POST /get/{key}`: looks the key up through the pipeline.
pub fn handle_get_item<P: Service>(pipeline: &mut P, key: String) -> (h: HttpReply)
    requires
        old(pipeline).inv(),
    ensures
        final(pipeline).inv(),
        exists|r: Result<ItemResponse, ServiceError>|
            P::serves(
                *old(pipeline),
                ItemRequest::GetItem((GetItemRequest { key: key })),
                *final(pipeline),
                r,
            ) && h@ == get_reply_view(r),
{
    let r = pipeline.call(ItemRequest::GetItem(GetItemRequest { key }));
    get_reply(r)
}

/// `POST /set` with `{key, value}`: stores the record through the pipeline.
pub fn handle_set_item<P: Service>(pipeline: &mut P, key: String, value: String) -> (h: HttpReply)
    requires
        old(pipeline).inv(),
    ensures
        final(pipeline).inv(),
        exists|r: Result<ItemResponse, ServiceError>|
            P::serves(
                *old(pipeline),
                ItemRequest::SetItem((SetItemRequest { kv: Kv { key: key, value: value } })),
                *final(pipeline),
                r,
            ) && h@ == set_reply_view(r),
{
    let r = pipeline.call(ItemRequest::SetItem(SetItemRequest { kv: Kv { key, value } }));
    set_reply(r)
}

/// `POST /delete` with `{keys}`: deletes the keys through the pipeline.
pub fn handle_delete_item<P: Service>(pipeline: &mut P, keys: Vec<String>) -> (h: HttpReply)
    requires
        old(pipeline).inv(),
    ensures
        final(pipeline).inv(),
        exists|r: Result<ItemResponse, ServiceError>|
            P::serves(
                *old(pipeline),
                ItemRequest::DeleteItem((DeleteItemRequest { keys: keys })),
                *final(pipeline),
                r,
            ) && h@ == delete_reply_view(r),
{
    let r = pipeline.call(ItemRequest::DeleteItem(DeleteItemRequest { keys }));
    delete_reply(r)
}

} // verus!
