//! Shaping a fetched response: check the status, parse the body as a JSON
//! array of 64-bit integers, keep the first ten, and wrap them as the
//! completion event. The network call itself lives outside the library;
//! this module receives the status code and body it produced.

use vstd::prelude::*;
use crate::Item;
use crate::state::Model;
use crate::state::Msg;

verus! {

/// Why a fetched response was rejected.
#[derive(Debug, Clone, Copy, PartialEq, Eq, Structural)]
pub enum FetchError {
    /// The HTTP status was not a success status.
    BadStatus,
    /// The body was not a JSON array of 64-bit integers.
    BadBody,
}

/// A success HTTP status, in the conventional 2xx class.
pub open spec fn spec_status_ok(status: u16) -> bool {
    200 <= status < 300
}

/// What `serde_json` deserializes a text to, when asked for a list of
/// 64-bit integers: the ids when the text is such a JSON array, nothing
/// otherwise.
pub uninterp spec fn json_id_list(s: Seq<char>) -> Option<Seq<i64>>;

#[verifier::external_type_specification]
#[verifier::external_body]
pub struct ExJsonError(serde_json::Error);

/// Relies on serde_json::from_str: deserializing text into `Vec<i64>`
/// succeeds exactly on JSON arrays of 64-bit integers and depends on the
/// text alone; `json_id_list` names its result.
#[verifier::external_body]
fn parse_id_json(body: &str) -> (r: Result<Vec<i64>, serde_json::Error>)
    ensures
        r is Ok <==> json_id_list(body@) is Some,
        r matches Ok(v) ==> json_id_list(body@) == Some(v@),
{
    serde_json::from_str::<Vec<i64>>(body)
}

/// The items stored for a list of fetched ids: the first ten (all of them
/// when fewer than ten), each wrapped as an `Item`, in the original order.
pub open spec fn shaped(ids: Seq<i64>) -> Seq<Item> {
    ids.take(if ids.len() <= 10 {
        ids.len() as int
    } else {
        10
    }).map_values(|id: i64| Item { id })
}

/// Truncate a list of ids to the first ten and wrap each as an `Item`,
/// preserving the source order.
pub fn shape(ids: Vec<i64>) -> (items: Vec<Item>)
    ensures
        items@ == shaped(ids@),
{
    let n: usize = if ids.len() < 10 {
        ids.len()
    } else {
        10
    };
    let mut items: Vec<Item> = Vec::new();
    let mut i: usize = 0;
    while i < n
        invariant
            i <= n,
            n <= ids@.len(),
            n == (if ids@.len() <= 10 {
                ids@.len() as int
            } else {
                10int
            }),
            items@.len() == i,
            forall|j: int| 0 <= j < i ==> items@[j] == (Item { id: ids@[j] }),
        decreases n - i,
    {
        items.push(Item { id: ids[i] });
        i += 1;
    }
    proof {
        assert(items@ =~= shaped(ids@));
    }
    items
}

/// The full shaping step for one response: a success status whose body is
/// a JSON array of integers yields the completion event carrying the first
/// ten ids; anything else yields the matching error.
pub fn handle_response(status: u16, body: &str) -> (r: Result<Msg, FetchError>)
    ensures
        !spec_status_ok(status) ==> (r matches Err(e) && e == FetchError::BadStatus),
        spec_status_ok(status) && json_id_list(body@) is None ==> (r matches Err(e)
            && e == FetchError::BadBody),
        spec_status_ok(status) ==> (json_id_list(body@) matches Some(ids) ==> (r matches Ok(m)
            && m matches Msg::Fetched(items) && items@ == shaped(ids))),
{
    if !(200 <= status && status < 300) {
        return Err(FetchError::BadStatus);
    }
    match parse_id_json(body) {
        Ok(ids) => Ok(Msg::Fetched(shape(ids))),
        Err(_) => Err(FetchError::BadBody),
    }
}

/// The fixed endpoint the story ids are requested from.
pub fn endpoint_url() -> (s: &'static str)
    ensures
        s@ == "https://hacker-news.firebaseio.com/v0/topstories.json"@,
{
    "https://hacker-news.firebaseio.com/v0/topstories.json"
}

/// Law: a fetched list of at least ten ids is stored as exactly the first
/// ten, in the original order, so that is what the state holds after the
/// completion event.
pub proof fn lemma_shape_truncates(ids: Seq<i64>)
    requires
        ids.len() >= 10,
    ensures
        shaped(ids).len() == 10,
        forall|i: int| 0 <= i < 10 ==> shaped(ids)[i] == (Item { id: ids[i] }),
{
}

/// Law: a fetched list of fewer than ten ids is stored whole, in the
/// original order, so that is what the state holds after the completion
/// event.
pub proof fn lemma_shape_keeps_short(ids: Seq<i64>)
    requires
        ids.len() < 10,
    ensures
        shaped(ids).len() == ids.len(),
        forall|i: int| 0 <= i < ids.len() ==> shaped(ids)[i] == (Item { id: ids[i] }),
{
}

/// Law: shaping never yields more than ten items, so a state holding a
/// shaped payload satisfies the invariant `Model::wf`.
pub proof fn lemma_shaped_fits(m: &Model, ids: Seq<i64>)
    requires
        m@ == Some(shaped(ids)),
    ensures
        shaped(ids).len() <= 10,
        m.wf(),
{
}

} // verus!
