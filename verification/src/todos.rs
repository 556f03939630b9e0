//! Todo items, the payloads that create and update them, and the rules
//! that every payload passes before it reaches the store.

use vstd::prelude::*;

use crate::text::{
    is_trimmed, is_white_space, lemma_trimmed_empty_iff_blank, lemma_trimmed_fixed_point,
    lemma_trimmed_is_trimmed, trim, trimmed,
};

verus! {

/// A stored todo item.
///
/// `id` is the item's UUID as a 128-bit big-endian number; `created_at` and
/// `updated_at` are UTC instants in microseconds since the Unix epoch.
#[derive(Debug, Clone)]
pub struct Todo {
    pub id: u128,
    pub title: String,
    pub completed: bool,
    pub created_at: i64,
    pub updated_at: i64,
}

/// The payload that creates a todo.
#[derive(Debug)]
pub struct TodoCreateInput {
    pub title: String,
}

/// The payload that changes a todo; an absent field is left as it is.
#[derive(Debug)]
pub struct TodoUpdateInput {
    pub title: Option<String>,
    pub completed: Option<bool>,
}

/// Message of the rejection of a title that is empty once trimmed.
pub open spec fn empty_title_message() -> Seq<char> {
    "title cannot be empty"@
}

/// Message of the rejection of an update that changes nothing.
pub open spec fn no_field_message() -> Seq<char> {
    "at least one field must be provided"@
}

/// What a create payload with `title` becomes: its title trimmed, or
/// `None` when nothing is left of it.
pub open spec fn normalized_create(title: Seq<char>) -> Option<Seq<char>> {
    if trimmed(title).len() == 0 {
        None
    } else {
        Some(trimmed(title))
    }
}

/// What an update payload becomes: the title, if given, trimmed and not
/// empty; and at least one of the two fields given. The error is the
/// message of the first rule broken, the title's rule first.
pub open spec fn normalized_update(
    title: Option<Seq<char>>,
    completed: Option<bool>,
) -> Result<(Option<Seq<char>>, Option<bool>), Seq<char>> {
    match title {
        Some(t) => if trimmed(t).len() == 0 {
            Err(empty_title_message())
        } else {
            Ok((Some(trimmed(t)), completed))
        },
        None => if completed is None {
            Err(no_field_message())
        } else {
            Ok((None, completed))
        },
    }
}

impl TodoCreateInput {
    /// Trims the title and rejects a title that is empty once trimmed.
    pub fn normalize_and_validate(self) -> (r: Result<Self, &'static str>)
        ensures
            r is Ok <==> normalized_create(self.title@) is Some,
            r matches Ok(v) ==> Some(v.title@) == normalized_create(self.title@),
            r matches Err(e) ==> e@ == empty_title_message(),
            trimmed(self.title@).len() > 0 ==> (r matches Ok(v) && v.title@ == trimmed(self.title@)),
    {
        let title = trim(self.title.as_str()).to_owned();
        if title.as_str().is_empty() {
            let e = "title cannot be empty";
            proof {
                reveal_strlit("title cannot be empty");
            }
            return Err(e);
        }
        Ok(TodoCreateInput { title })
    }
}

impl TodoUpdateInput {
    /// Trims the title, if given, and rejects an empty title or a payload
    /// that gives neither field.
    pub fn normalize_and_validate(self) -> (r: Result<Self, &'static str>)
        ensures
            match normalized_update(self.title.deep_view(), self.completed) {
                Ok((t, c)) => r matches Ok(v) && v.title.deep_view() == t && v.completed == c,
                Err(m) => r matches Err(e) && e@ == m,
            },
            r matches Ok(v) ==> v.completed == self.completed,
    {
        let TodoUpdateInput { title, completed } = self;
        let title = match title {
            Some(t) => {
                let t2 = trim(t.as_str()).to_owned();
                if t2.as_str().is_empty() {
                    let e = "title cannot be empty";
                    proof {
                        reveal_strlit("title cannot be empty");
                    }
                    return Err(e);
                }
                Some(t2)
            },
            None => None,
        };
        if title.is_none() && completed.is_none() {
            let e = "at least one field must be provided";
            proof {
                reveal_strlit("at least one field must be provided");
            }
            return Err(e);
        }
        Ok(TodoUpdateInput { title, completed })
    }
}

/// A title that create accepts comes out of normalization as it went in:
/// normalizing a normalized create payload changes nothing.
pub proof fn law_create_normalization_idempotent(title: Seq<char>)
    requires
        normalized_create(title) is Some,
    ensures
        normalized_create(normalized_create(title)->0) == normalized_create(title),
{
    lemma_trimmed_is_trimmed(title);
    lemma_trimmed_fixed_point(trimmed(title));
}

/// An update payload that passes validation passes it again unchanged.
pub proof fn law_update_normalization_idempotent(title: Option<Seq<char>>, completed: Option<bool>)
    requires
        normalized_update(title, completed) is Ok,
    ensures
        normalized_update(
            normalized_update(title, completed)->Ok_0.0,
            normalized_update(title, completed)->Ok_0.1,
        ) == normalized_update(title, completed),
{
    if let Some(t) = title {
        lemma_trimmed_is_trimmed(t);
        lemma_trimmed_fixed_point(trimmed(t));
    }
}

/// A title that passes validation is not empty and has no white space at
/// either end.
pub proof fn law_accepted_title_is_trimmed(title: Seq<char>)
    requires
        normalized_create(title) is Some,
    ensures
        normalized_create(title)->0.len() > 0,
        is_trimmed(normalized_create(title)->0),
{
    lemma_trimmed_is_trimmed(title);
}

/// Create rejects a title exactly when nothing but white space is in it;
/// any other title is accepted, trimmed.
pub proof fn law_create_accepts_exactly_non_blank_titles(title: Seq<char>)
    ensures
        normalized_create(title) is None <==> trimmed(title).len() == 0,
        trimmed(title).len() > 0 ==> normalized_create(title) == Some(trimmed(title)),
        normalized_create(title) is None <==> forall|j: int|
            0 <= j < title.len() ==> is_white_space(#[trigger] title[j]),
{
    lemma_trimmed_empty_iff_blank(title);
}

/// Update keeps the `completed` field it was given, keeps an absent title
/// absent, trims a given title, and rejects exactly a blank title or a
/// payload that gives neither field.
pub proof fn law_update_keeps_fields(title: Option<Seq<char>>, completed: Option<bool>)
    ensures
        normalized_update(title, completed) is Err <==> (
            (title matches Some(t) && trimmed(t).len() == 0)
            || (title is None && completed is None)),
        normalized_update(title, completed) matches Ok((t2, c2)) ==> {
            &&& c2 == completed
            &&& title is None ==> t2 is None
            &&& title matches Some(t) ==> t2 == Some(trimmed(t))
        },
{
}

} // verus!
