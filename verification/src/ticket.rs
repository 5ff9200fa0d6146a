use vstd::prelude::*;
use vstd::string::StringExecFns;

verus! {

/// A support ticket record. `status` is one of the workflow tags, "Open" at
/// creation; `id` and `created_at` are set once at creation.
#[derive(Debug)]
pub struct Ticket {
    pub id: String,
    pub title: String,
    pub description: String,
    pub status: String,
    pub created_at: i64,
}

/// The request body that creates a ticket: the caller chooses only the title
/// and description, never the id, status or creation instant.
#[derive(Debug)]
pub struct CreateTicket {
    pub title: String,
    pub description: String,
}

/// The request body that updates a ticket: each field is applied only where
/// present, and an absent field leaves the stored value as it was.
#[derive(Debug)]
pub struct UpdateTicket {
    pub title: Option<String>,
    pub description: Option<String>,
    pub status: Option<String>,
}

/// Builds the record a creation request stores: the caller's title and
/// description under the given id and instant, always in the "Open" status.
pub fn new_ticket(id: String, data: CreateTicket, created_at: i64) -> (t: Ticket)
    ensures
        t.id@ == id@,
        t.title@ == data.title@,
        t.description@ == data.description@,
        t.status@ == "Open"@,
        t.created_at == created_at,
{
    Ticket {
        id,
        title: data.title,
        description: data.description,
        status: String::from_str("Open"),
        created_at,
    }
}

/// Applies an update to a stored ticket: each present field replaces the
/// stored one, each absent field keeps it, and the id and creation instant
/// never change.
pub fn apply_update(t: &mut Ticket, update: UpdateTicket)
    ensures
        final(t).id@ == old(t).id@,
        final(t).created_at == old(t).created_at,
        final(t).title@ == (match update.title {
            Some(v) => v@,
            None => old(t).title@,
        }),
        final(t).description@ == (match update.description {
            Some(v) => v@,
            None => old(t).description@,
        }),
        final(t).status@ == (match update.status {
            Some(v) => v@,
            None => old(t).status@,
        }),
{
    match update.title {
        Some(v) => {
            t.title = v;
        },
        None => {},
    }
    match update.description {
        Some(v) => {
            t.description = v;
        },
        None => {},
    }
    match update.status {
        Some(v) => {
            t.status = v;
        },
        None => {},
    }
}

} // verus!
