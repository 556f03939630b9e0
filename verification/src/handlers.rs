//! The decisions of the todo endpoints: what a request payload must be
//! before it reaches the store, and what the client is answered with
//! once the store has replied.

use vstd::prelude::*;

use crate::error::AppResult;
use crate::response::{ApiCreatedResponse, ApiDataResponse, ApiError, ApiResult, MapApiError};
use crate::todos::{normalized_create, normalized_update, Todo, TodoCreateInput, TodoUpdateInput};

verus! {

/// The lowercase hexadecimal digit of `v`, for `v < 16`.
pub open spec fn hex_digit(v: nat) -> char {
    if v < 10 {
        (48 + v) as char
    } else {
        (87 + v) as char
    }
}

/// The `k`-th four-bit group of `id`, counted from the most significant.
pub open spec fn uuid_nibble(id: u128, k: int) -> nat {
    ((id >> ((124 - 4 * k) as u128)) & 15u128) as nat
}

/// The 32 lowercase hexadecimal digits of `id`, most significant first.
pub open spec fn uuid_hex(id: u128) -> Seq<char> {
    Seq::new(32, |k: int| hex_digit(uuid_nibble(id, k)))
}

/// The hyphenated text of a UUID: its digits in groups of 8, 4, 4, 4
/// and 12, joined by `-`.
pub open spec fn hyphenated_uuid(id: u128) -> Seq<char> {
    let h = uuid_hex(id);
    h.subrange(0, 8) + seq!['-'] + h.subrange(8, 12) + seq!['-'] + h.subrange(12, 16)
        + seq!['-'] + h.subrange(16, 20) + seq!['-'] + h.subrange(20, 32)
}

/// The path under which the todo with `id` is found.
pub open spec fn todo_location_of(id: u128) -> Seq<char> {
    "/api/todos/"@ + hyphenated_uuid(id)
}

/// Shifting right by `s` keeps the bits above `s + 4`, moved up by four,
/// and the four-bit group at `s`.
proof fn lemma_shift_split(x: u128, s: u128)
    by (bit_vector)
    requires
        s <= 120,
    ensures
        x >> s == ((x >> (s + 4)) << 4u128) | ((x >> s) & 15u128),
{
}

/// The top four bits of a number are its first four-bit group.
proof fn lemma_top_nibble(x: u128)
    by (bit_vector)
    ensures
        x >> 124u128 == (x >> 124u128) & 15u128,
        x >> 0u128 == x,
{
}

/// Numbers whose first `n + 1` four-bit groups agree agree on all bits
/// from position `124 - 4 * n` up.
proof fn lemma_top_groups_agree(a: u128, b: u128, n: int)
    requires
        0 <= n < 32,
        forall|k: int| 0 <= k <= n ==> uuid_nibble(a, k) == uuid_nibble(b, k),
    ensures
        a >> ((124 - 4 * n) as u128) == b >> ((124 - 4 * n) as u128),
    decreases n,
{
    if n == 0 {
        lemma_top_nibble(a);
        lemma_top_nibble(b);
        assert(uuid_nibble(a, 0) == uuid_nibble(b, 0));
    } else {
        lemma_top_groups_agree(a, b, n - 1);
        let s = (124 - 4 * n) as u128;
        lemma_shift_split(a, s);
        lemma_shift_split(b, s);
        assert(uuid_nibble(a, n) == uuid_nibble(b, n));
        assert((s + 4) as u128 == (124 - 4 * (n - 1)) as u128);
    }
}

/// A 128-bit number is determined by its 32 four-bit groups.
proof fn lemma_nibbles_determine(a: u128, b: u128)
    requires
        forall|k: int| 0 <= k < 32 ==> uuid_nibble(a, k) == uuid_nibble(b, k),
    ensures
        a == b,
{
    lemma_top_groups_agree(a, b, 31);
    lemma_top_nibble(a);
    lemma_top_nibble(b);
}

/// The low four bits of a number are below 16.
proof fn lemma_low_nibble(x: u128)
    by (bit_vector)
    ensures
        x & 15u128 < 16u128,
{
}

/// Distinct digit values have distinct hexadecimal digits.
proof fn lemma_hex_digit_injective(v: nat, w: nat)
    requires
        v < 16,
        w < 16,
        hex_digit(v) == hex_digit(w),
    ensures
        v == w,
{
}

/// The location of a created todo names that todo alone: two todos with
/// the same location have the same id.
pub proof fn law_location_identifies_todo(a: u128, b: u128)
    requires
        todo_location_of(a) == todo_location_of(b),
    ensures
        a == b,
{
    reveal_strlit("/api/todos/");
    assert(todo_location_of(a).subrange(11, 47) =~= hyphenated_uuid(a));
    assert(todo_location_of(b).subrange(11, 47) =~= hyphenated_uuid(b));
    let ha = hyphenated_uuid(a);
    let hb = hyphenated_uuid(b);
    assert forall|k: int| 0 <= k < 32 implies uuid_nibble(a, k) == uuid_nibble(b, k) by {
        let p = if k < 8 { k } else if k < 12 { k + 1 } else if k < 16 { k + 2 } else if k < 20 { k + 3 } else { k + 4 };
        assert(ha[p] == uuid_hex(a)[k]);
        assert(hb[p] == uuid_hex(b)[k]);
        lemma_low_nibble(a >> ((124 - 4 * k) as u128));
        lemma_low_nibble(b >> ((124 - 4 * k) as u128));
        lemma_hex_digit_injective(uuid_nibble(a, k), uuid_nibble(b, k));
    }
    lemma_nibbles_determine(a, b);
}

/// The value of a lowercase hexadecimal digit.
pub open spec fn hex_value(c: char) -> int {
    if c as int <= '9' as int {
        c as int - '0' as int
    } else {
        c as int - 'a' as int + 10
    }
}

/// Where the `k`-th hexadecimal digit stands in a hyphenated UUID: after
/// one `-` for each group before it.
pub open spec fn uuid_digit_position(k: int) -> int {
    if k < 8 {
        k
    } else if k < 12 {
        k + 1
    } else if k < 16 {
        k + 2
    } else if k < 20 {
        k + 3
    } else {
        k + 4
    }
}

/// The location of a todo is `/api/todos/` and then the id's UUID text and
/// nothing else: 47 characters, `-` after the groups of 8, 4, 4 and 4
/// digits, and otherwise lowercase hexadecimal digits that give the id's
/// four-bit groups from the most significant on.
pub proof fn law_location_shape(id: u128)
    ensures
        todo_location_of(id).len() == 47,
        todo_location_of(id).subrange(0, 11) == "/api/todos/"@,
        todo_location_of(id)[19] == '-',
        todo_location_of(id)[24] == '-',
        todo_location_of(id)[29] == '-',
        todo_location_of(id)[34] == '-',
        forall|k: int| 0 <= k < 32 ==> {
            let c = #[trigger] todo_location_of(id)[11 + uuid_digit_position(k)];
            &&& ('0' <= c <= '9' || 'a' <= c <= 'f')
            &&& hex_value(c) == ((id >> ((124 - 4 * k) as u128)) & 15u128) as int
        },
{
    reveal_strlit("/api/todos/");
    let loc = todo_location_of(id);
    let h = hyphenated_uuid(id);
    assert(loc.subrange(0, 11) =~= "/api/todos/"@);
    assert(loc.subrange(11, 47) =~= h);
    assert(loc[19] == h[8]);
    assert(loc[24] == h[13]);
    assert(loc[29] == h[18]);
    assert(loc[34] == h[23]);
    assert forall|k: int| 0 <= k < 32 implies {
        let c = #[trigger] loc[11 + uuid_digit_position(k)];
        &&& ('0' <= c <= '9' || 'a' <= c <= 'f')
        &&& hex_value(c) == ((id >> ((124 - 4 * k) as u128)) & 15u128) as int
    } by {
        let p = uuid_digit_position(k);
        assert(loc[11 + p] == h[p]);
        assert(h[p] == uuid_hex(id)[k]);
        lemma_low_nibble(id >> ((124 - 4 * k) as u128));
    }
}

/// `uuid::Uuid::from_u128` followed by its `Display`: the UUID whose
/// bytes are `id` in big-endian order, written as lowercase hyphenated
/// hexadecimal.
#[verifier::external_body]
fn uuid_text(id: u128) -> (s: String)
    ensures
        s@ == hyphenated_uuid(id),
{
    uuid::Uuid::from_u128(id).to_string()
}

/// The path under which the todo with `id` is found.
pub fn todo_location(id: u128) -> (l: String)
    ensures
        l@ == todo_location_of(id),
{
    proof { reveal_strlit("/api/todos/"); }
    let mut l = "/api/todos/".to_owned();
    let u = uuid_text(id);
    l.append(u.as_str());
    l
}

/// The payload of a create request, normalized; a payload that breaks a
/// rule is a bad request that carries the rule's message.
pub fn create_todo_payload(payload: TodoCreateInput) -> (r: ApiResult<TodoCreateInput>)
    ensures
        match normalized_create(payload.title@) {
            Some(t) => r matches Ok(v) && v.title@ == t,
            None => r matches Err(ApiError::BadRequest(m)) && m@ == "title cannot be empty"@,
        },
{
    match payload.normalize_and_validate() {
        Ok(v) => Ok(v),
        Err(m) => Err(ApiError::BadRequest(m.to_owned())),
    }
}

/// The payload of an update request, normalized; a payload that breaks a
/// rule is a bad request that carries the rule's message.
pub fn update_todo_payload(payload: TodoUpdateInput) -> (r: ApiResult<TodoUpdateInput>)
    ensures
        match normalized_update(payload.title.deep_view(), payload.completed) {
            Ok((t, c)) => r matches Ok(v) && v.title.deep_view() == t && v.completed == c,
            Err(msg) => r matches Err(ApiError::BadRequest(m)) && m@ == msg,
        },
{
    match payload.normalize_and_validate() {
        Ok(v) => Ok(v),
        Err(m) => Err(ApiError::BadRequest(m.to_owned())),
    }
}

/// The answer to a create request once the store has replied: the new
/// todo with its location, or an internal error.
pub fn create_todo_reply(outcome: AppResult<Todo>) -> (r: ApiResult<ApiCreatedResponse<Todo>>)
    ensures
        match outcome {
            Ok(todo) => r matches Ok(c) && {
                &&& c.body.status@ == "success"@
                &&& c.body.data == todo
                &&& c.location matches Some(l)
                &&& l@ == todo_location_of(todo.id)
            },
            Err(_) => r matches Err(ApiError::Internal),
        },
{
    let todo = outcome.map_api_err()?;
    let location = todo_location(todo.id);
    Ok(ApiCreatedResponse::new(todo, Some(location)))
}

/// The answer to a list request once the store has replied: the todos,
/// or an internal error.
pub fn list_todos_reply(outcome: AppResult<Vec<Todo>>) -> (r: ApiResult<ApiDataResponse<Vec<Todo>>>)
    ensures
        match outcome {
            Ok(todos) => r matches Ok(d) && d.status@ == "success"@ && d.data == todos,
            Err(_) => r matches Err(ApiError::Internal),
        },
{
    let todos = outcome.map_api_err()?;
    Ok(ApiDataResponse::ok(todos))
}

/// The answer to a request for one todo (read, update or delete) once the
/// store has replied: the todo; "todo not found" when no row matched; or
/// an internal error.
pub fn todo_reply(outcome: AppResult<Todo>) -> (r: ApiResult<ApiDataResponse<Todo>>)
    ensures
        match outcome {
            Ok(todo) => r matches Ok(d) && d.status@ == "success"@ && d.data == todo,
            Err(e) => if e.caused_by_row_not_found() {
                r matches Err(ApiError::NotFound(m)) && m@ == "todo not found"@
            } else {
                r matches Err(ApiError::Internal)
            },
        },
{
    proof { reveal_strlit("todo not found"); }
    let todo = outcome.map_api_not_found("todo not found".to_owned())?;
    Ok(ApiDataResponse::ok(todo))
}

} // verus!
