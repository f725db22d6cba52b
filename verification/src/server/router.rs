//! What the HTTP handlers decide before and after they reach the store: which
//! keys they accept, how a key is built from a task, and whose tasks a
//! listing is about.
use vstd::prelude::*;
use vstd::string::*;

use crate::errors::{server_error_detail, server_error_status, ServerError, BAD_REQUEST};
use crate::storage::models::{Task, TaskView};
use crate::text::{
    is_task_key, is_user_tasks_pattern, lemma_uuid_has_no_colon, regex_is_match, trim, trimmed,
    uuid_hyphenated, uuid_text, TASK_KEY_PATTERN, USER_TASKS_PATTERN,
};

verus! {

/// A field of a key: not empty and without ':'.
pub open spec fn is_key_field(s: Seq<char>) -> bool {
    s.len() > 0 && !s.contains(':')
}

/// Three fields joined by ':'.
pub open spec fn join_key(a: Seq<char>, b: Seq<char>, c: Seq<char>) -> Seq<char> {
    a + seq![':'] + b + seq![':'] + c
}

/// The key under which a task is stored: `user_id:service:task_id`.
pub open spec fn task_key(t: TaskView) -> Seq<char> {
    join_key(t.user_id, t.service, uuid_hyphenated(t.task_id))
}

/// The pattern that selects every task of a user: `user_id:*`.
pub open spec fn user_pattern(user_id: Seq<char>) -> Seq<char> {
    user_id + seq![':', '*']
}

/// Whether `key` has the form `user_id:service:task_id`.
pub fn check_key_pattern(key: &str) -> (r: bool)
    ensures
        r == is_task_key(key@),
{
    regex_is_match(TASK_KEY_PATTERN, key).unwrap()
}

/// Whether `key` has the form `user_id:*`.
pub fn check_client_key_pattern(key: &str) -> (r: bool)
    ensures
        r == is_user_tasks_pattern(key@),
{
    regex_is_match(USER_TASKS_PATTERN, key).unwrap()
}

/// Builds the store key of a task from its user, service and id.
pub fn build_task_key_from_task(task: &Task) -> (r: String)
    ensures
        r@ == task_key(task@),
{
    let id = uuid_text(task.task_id);
    proof {
        reveal_strlit(":");
    }
    task.user_id.clone().concat(":").concat(task.service.as_str()).concat(":").concat(id.as_str())
}

/// The message of a rejected key.
pub open spec fn key_format_message() -> Seq<char> {
    "Key format error"@
}

/// Accepts a key of the form `user_id:service:task_id`; any other key is
/// refused with `IvalidKeyFormat`, before the store is asked.
pub fn validate_task_key(key: &str) -> (r: Result<(), ServerError>)
    ensures
        r is Ok <==> is_task_key(key@),
        r matches Err(e) ==> e matches ServerError::IvalidKeyFormat(m) && m@
            == key_format_message(),
{
    if check_key_pattern(key) {
        Ok(())
    } else {
        Err(ServerError::IvalidKeyFormat(String::from_str("Key format error")))
    }
}

/// A request whose key is refused is answered with 400 Bad Request and the
/// text "Key format error".
pub proof fn lemma_refused_key_answer(e: ServerError)
    requires
        e matches ServerError::IvalidKeyFormat(m) && m@ == key_format_message(),
    ensures
        server_error_status(e) == BAD_REQUEST,
        server_error_detail(e) == key_format_message(),
{
}

/// The key under which a task sent without one is stored, when that key is
/// well formed.
pub fn task_key_for_creation(task: &Task) -> (r: Result<String, ServerError>)
    ensures
        r matches Ok(k) ==> k@ == task_key(task@),
        r is Ok <==> is_key_field(task@.user_id) && is_key_field(task@.service),
        r matches Err(e) ==> e matches ServerError::IvalidKeyFormat(m) && m@
            == key_format_message(),
{
    let key = build_task_key_from_task(task);
    proof {
        lemma_task_key_fields(task@);
    }
    match validate_task_key(key.as_str()) {
        Ok(()) => Ok(key),
        Err(e) => Err(e),
    }
}

/// `user_id` with its surrounding white space removed, when something is left.
pub open spec fn present_user_id(v: Option<Seq<char>>) -> Option<Seq<char>> {
    match v {
        Some(s) => if trimmed(s).len() > 0 {
            Some(trimmed(s))
        } else {
            None
        },
        None => None,
    }
}

/// The user that a listing is for: the `X-User-ID` header when it holds more
/// than white space, else the `user_id` query parameter on the same terms.
pub open spec fn chosen_user_id(query: Option<Seq<char>>, header: Option<Seq<char>>) -> Option<
    Seq<char>,
> {
    match present_user_id(header) {
        Some(h) => Some(h),
        None => present_user_id(query),
    }
}

/// How the user of a listing is chosen: a header with more than white space
/// names the user, whatever the query holds; else a query with more than
/// white space does; with neither there is no user. The chosen user is the
/// value with its surrounding white space removed.
pub proof fn lemma_user_choice(query: Option<Seq<char>>, header: Option<Seq<char>>)
    ensures
        (header is Some && trimmed(header.unwrap()).len() > 0) ==> chosen_user_id(query, header)
            == Some(trimmed(header.unwrap())),
        ((header is Some ==> trimmed(header.unwrap()).len() == 0) && query is Some && trimmed(
            query.unwrap(),
        ).len() > 0) ==> chosen_user_id(query, header) == Some(trimmed(query.unwrap())),
        ((header is Some ==> trimmed(header.unwrap()).len() == 0) && (query is Some ==> trimmed(
            query.unwrap(),
        ).len() == 0)) ==> chosen_user_id(query, header) is None,
        chosen_user_id(query, header) matches Some(u) ==> u.len() > 0,
{
}

/// The view of an optional text.
pub open spec fn opt_text(v: Option<&str>) -> Option<Seq<char>> {
    match v {
        Some(s) => Some(s@),
        None => None,
    }
}

/// The message of a listing that names no user.
pub open spec fn missing_user_message() -> Seq<char> {
    "user_id is required in query or X-User-ID header"@
}

fn present_text(v: Option<&str>) -> (r: Option<&str>)
    ensures
        opt_text(r) == present_user_id(opt_text(v)),
{
    match v {
        Some(s) => {
            let t = trim(s);
            if t.is_empty() {
                None
            } else {
                Some(t)
            }
        },
        None => None,
    }
}

/// Picks the user of a listing from the `user_id` query parameter and the
/// `X-User-ID` header, the header first; blank values count as absent.
pub fn select_user_id(query_user_id: Option<&str>, header_user_id: Option<&str>) -> (r: Result<
    String,
    ServerError,
>)
    ensures
        r matches Ok(u) ==> chosen_user_id(opt_text(query_user_id), opt_text(header_user_id))
            == Some(u@),
        r is Err <==> chosen_user_id(opt_text(query_user_id), opt_text(header_user_id)) is None,
        r matches Err(e) ==> e matches ServerError::IvalidKeyFormat(m) && m@
            == missing_user_message(),
        (header_user_id is Some && trimmed(header_user_id.unwrap()@).len() > 0) ==> (r matches Ok(
            u,
        ) && u@ == trimmed(header_user_id.unwrap()@)),
        ((header_user_id is Some ==> trimmed(header_user_id.unwrap()@).len() == 0)
            && query_user_id is Some && trimmed(query_user_id.unwrap()@).len() > 0) ==> (r matches Ok(
            u,
        ) && u@ == trimmed(query_user_id.unwrap()@)),
{
    match present_text(header_user_id) {
        Some(h) => Ok(h.to_owned()),
        None => match present_text(query_user_id) {
            Some(q) => Ok(q.to_owned()),
            None => Err(
                ServerError::IvalidKeyFormat(
                    String::from_str("user_id is required in query or X-User-ID header"),
                ),
            ),
        },
    }
}

/// The pattern of the keys that a task listing reads: `user_id:*` for the
/// user that `select_user_id` picks.
pub fn user_tasks_pattern(query_user_id: Option<&str>, header_user_id: Option<&str>) -> (r: Result<
    String,
    ServerError,
>)
    ensures
        r matches Ok(p) ==> chosen_user_id(opt_text(query_user_id), opt_text(header_user_id))
            matches Some(u) && p@ == user_pattern(u),
        r is Err <==> chosen_user_id(opt_text(query_user_id), opt_text(header_user_id)) is None,
        r matches Err(e) ==> e matches ServerError::IvalidKeyFormat(m) && m@
            == missing_user_message(),
{
    match select_user_id(query_user_id, header_user_id) {
        Ok(u) => {
            proof {
                reveal_strlit(":*");
            }
            Ok(u.concat(":*"))
        },
        Err(e) => Err(e),
    }
}

/// Three fields joined by ':' form a task key exactly when each of them is a
/// non-empty field without ':'.
pub proof fn lemma_join_key_is_task_key(a: Seq<char>, b: Seq<char>, c: Seq<char>)
    ensures
        is_task_key(join_key(a, b, c)) <==> is_key_field(a) && is_key_field(b) && is_key_field(c),
{
    let k = join_key(a, b, c);
    let p = a.len() as int;
    let q = (a.len() + 1 + b.len()) as int;
    assert(k.len() == a.len() + b.len() + c.len() + 2);
    assert(k[p] == ':');
    assert(k[q] == ':');
    assert forall|m: int| 0 <= m < a.len() implies k[m] == a[m] by {}
    assert forall|m: int| 0 <= m < b.len() implies k[p + 1 + m] == b[m] by {}
    assert forall|m: int| 0 <= m < c.len() implies k[q + 1 + m] == c[m] by {}
    if is_task_key(k) {
        let (i, j) = choose|i: int, j: int|
            0 < i && i + 1 < j && j + 1 < k.len() && k[i] == ':' && k[j] == ':' && (forall|m: int|
                0 <= m < k.len() && m != i && m != j ==> #[trigger] k[m] != ':');
        assert(p == i && q == j);
        assert forall|m: int| 0 <= m < a.len() implies a[m] != ':' by {
            assert(k[m] != ':');
        }
        assert forall|m: int| 0 <= m < b.len() implies b[m] != ':' by {
            assert(k[p + 1 + m] != ':');
        }
        assert forall|m: int| 0 <= m < c.len() implies c[m] != ':' by {
            assert(k[q + 1 + m] != ':');
        }
    }
    if is_key_field(a) && is_key_field(b) && is_key_field(c) {
        assert forall|m: int| 0 <= m < k.len() && m != p && m != q implies #[trigger] k[m] != ':' by {
            if m < p {
                assert(k[m] == a[m]);
            } else if m < q {
                assert(k[m] == b[m - p - 1]);
            } else {
                assert(k[m] == c[m - q - 1]);
            }
        }
    }
}

/// An accepted key is exactly three fields joined by ':': it splits into a
/// user, a service and a task id, none empty and none holding ':'.
pub proof fn lemma_task_key_splits(k: Seq<char>)
    requires
        is_task_key(k),
    ensures
        exists|a: Seq<char>, b: Seq<char>, c: Seq<char>|
            is_key_field(a) && is_key_field(b) && is_key_field(c) && k == join_key(a, b, c),
{
    let (i, j) = choose|i: int, j: int|
        0 < i && i + 1 < j && j + 1 < k.len() && k[i] == ':' && k[j] == ':' && (forall|m: int|
            0 <= m < k.len() && m != i && m != j ==> #[trigger] k[m] != ':');
    let a = k.subrange(0, i);
    let b = k.subrange(i + 1, j);
    let c = k.subrange(j + 1, k.len() as int);
    assert(k =~= join_key(a, b, c));
    assert forall|m: int| 0 <= m < a.len() implies a[m] != ':' by {
        assert(k[m] != ':');
    }
    assert forall|m: int| 0 <= m < b.len() implies b[m] != ':' by {
        assert(k[i + 1 + m] != ':');
    }
    assert forall|m: int| 0 <= m < c.len() implies c[m] != ':' by {
        assert(k[j + 1 + m] != ':');
    }
}

/// A key built from a task is accepted exactly when the user and the service
/// of the task are non-empty and hold no ':'; the task id never stands in the
/// way.
pub proof fn lemma_task_key_fields(t: TaskView)
    ensures
        is_task_key(task_key(t)) <==> is_key_field(t.user_id) && is_key_field(t.service),
{
    lemma_uuid_has_no_colon(t.task_id);
    lemma_join_key_is_task_key(t.user_id, t.service, uuid_hyphenated(t.task_id));
}

/// The user picked for a listing is never blank, so the listing pattern
/// `user_id:*` is accepted exactly when that user holds no ':'.
pub proof fn lemma_listing_pattern_accepted(query: Option<Seq<char>>, header: Option<Seq<char>>)
    ensures
        chosen_user_id(query, header) matches Some(u) ==> u.len() > 0 && (is_user_tasks_pattern(
            user_pattern(u),
        ) <==> !u.contains(':')),
{
    if let Some(u) = chosen_user_id(query, header) {
        lemma_user_pattern_accepted(u);
    }
}

/// `user_id:*` is an accepted listing pattern exactly when `user_id` is a
/// non-empty field without ':'.
pub proof fn lemma_user_pattern_accepted(u: Seq<char>)
    ensures
        is_user_tasks_pattern(user_pattern(u)) <==> is_key_field(u),
{
    let p = user_pattern(u);
    assert forall|m: int| 0 <= m < u.len() implies p[m] == u[m] by {}
    if is_user_tasks_pattern(p) {
        assert forall|m: int| 0 <= m < u.len() implies u[m] != ':' by {
            assert(p[m] != ':');
        }
    }
}

} // verus!
