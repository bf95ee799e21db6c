use vstd::prelude::*;

verus! {

/// A 2xx HTTP status code.
pub open spec fn spec_is_success(status: int) -> bool {
    200 <= status < 300
}

/// Returns true for a 2xx HTTP status.
pub fn is_success(status: i32) -> (ok: bool)
    ensures
        ok == spec_is_success(status as int),
{
    200 <= status && status < 300
}

/// The `(body, status)` pair that a request yields: the status code and the
/// body text (empty when it could not be read) of a response; `("", 0)` when
/// no response came.
pub open spec fn spec_reply(outcome: Option<(u16, Option<Seq<char>>)>) -> (Seq<char>, i32) {
    match outcome {
        Some((status, body)) => (
            match body {
                Some(b) => b,
                None => Seq::empty(),
            },
            status as i32,
        ),
        None => (Seq::empty(), 0),
    }
}

/// Turns what a send produced into `(body, status)`: `outcome` is the
/// response's status code and body text (`None` when reading the body
/// failed), or `None` on a transport error, which yields `("", 0)`.
pub fn reply_of(outcome: Option<(u16, Option<String>)>) -> (reply: (String, i32))
    ensures
        (reply.0@, reply.1) == spec_reply(
            match outcome {
                Some((s, b)) => Some((s, b.deep_view())),
                None => None,
            },
        ),
{
    match outcome {
        Some((status, body)) => {
            let text = match body {
                Some(b) => b,
                None => String::new(),
            };
            (text, status as i32)
        },
        None => (String::new(), 0),
    }
}

/// A request that got no response never counts as a success, and yields
/// an empty body.
pub proof fn law_transport_failure_is_not_success()
    ensures
        !spec_is_success(spec_reply(None).1 as int),
        spec_reply(None).0.len() == 0,
{
}

/// A response's status is passed on unchanged, so it is a success exactly
/// when its code is 2xx.
pub proof fn law_response_status_kept(status: u16, body: Option<Seq<char>>)
    ensures
        spec_reply(Some((status, body))).1 == status as int,
        spec_is_success(spec_reply(Some((status, body))).1 as int) <==> 200 <= status < 300,
{
}

/// A response's body text is passed on unchanged; an unreadable body reads
/// as empty.
pub proof fn law_response_body_kept(status: u16, body: Seq<char>)
    ensures
        spec_reply(Some((status, Some(body)))).0 == body,
        spec_reply(Some((status, None))).0.len() == 0,
{
}

} // verus!
