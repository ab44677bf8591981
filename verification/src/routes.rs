//! Decisions of the web route layer.
//!
//! The HTTP handlers themselves (session extraction, template rendering,
//! response codes) live outside the library; what they decide — who may
//! archive which link, and how a stored link becomes a template row — is
//! here, verified.

use vstd::prelude::*;

use crate::text::{dec_i64, i64_to_string};

verus! {

/// What the archive route does with a request.
#[derive(Clone, Copy, Debug, PartialEq, Eq, Structural)]
pub enum ArchiveDecision {
    /// No authenticated session: the request is refused.
    Forbidden,
    /// The link does not exist, or belongs to someone else; the two are
    /// indistinguishable to the requester.
    NotFound,
    /// The link exists and belongs to the session's user: archive it.
    Archive { user_id: i64, link_id: i64 },
}

pub open spec fn archive_decision_spec(
    session_user: Option<i64>,
    link_id: i64,
    pending_owner: Option<i64>,
) -> ArchiveDecision {
    match session_user {
        None => ArchiveDecision::Forbidden,
        Some(user) => match pending_owner {
            Some(owner) => if owner == user {
                ArchiveDecision::Archive { user_id: user, link_id }
            } else {
                ArchiveDecision::NotFound
            },
            None => ArchiveDecision::NotFound,
        },
    }
}

/// Decides an archive request: `session_user` is the authenticated user,
/// if any; `pending_owner` is the owner of the pending link under
/// `link_id`, if such a link exists.
pub fn archive_decision(
    session_user: Option<i64>,
    link_id: i64,
    pending_owner: Option<i64>,
) -> (d: ArchiveDecision)
    ensures
        d == archive_decision_spec(session_user, link_id, pending_owner),
{
    match session_user {
        None => ArchiveDecision::Forbidden,
        Some(user) => match pending_owner {
            Some(owner) => if owner == user {
                ArchiveDecision::Archive { user_id: user, link_id }
            } else {
                ArchiveDecision::NotFound
            },
            None => ArchiveDecision::NotFound,
        },
    }
}

/// Turns stored links `(id, url, title)` into template rows
/// `(id, url, text)`: the id rendered in decimal, and the link's title,
/// or the URL itself where the page had none.
pub fn link_rows(links: &Vec<(i64, String, Option<String>)>) -> (rows: Vec<(String, String, String)>)
    ensures
        rows@.len() == links@.len(),
        forall|i: int|
            0 <= i < links@.len() ==> {
                &&& (#[trigger] rows@[i]).0@ == dec_i64(links@[i].0 as int)
                &&& rows@[i].1@ == links@[i].1@
                &&& rows@[i].2@ == (match links@[i].2 {
                    Some(t) => t@,
                    None => links@[i].1@,
                })
            },
{
    let mut rows: Vec<(String, String, String)> = Vec::new();
    let mut i: usize = 0;
    while i < links.len()
        invariant
            0 <= i <= links@.len(),
            rows@.len() == i,
            forall|j: int|
                0 <= j < i ==> {
                    &&& (#[trigger] rows@[j]).0@ == dec_i64(links@[j].0 as int)
                    &&& rows@[j].1@ == links@[j].1@
                    &&& rows@[j].2@ == (match links@[j].2 {
                        Some(t) => t@,
                        None => links@[j].1@,
                    })
                },
        decreases links@.len() - i,
    {
        let id_text = i64_to_string(links[i].0);
        let url_text = links[i].1.clone();
        let link_text = match &links[i].2 {
            Some(t) => t.clone(),
            None => links[i].1.clone(),
        };
        rows.push((id_text, url_text, link_text));
        i += 1;
    }
    rows
}

} // verus!
