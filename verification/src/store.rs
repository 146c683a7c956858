//! What the store holds, and where: one record per reading, and the single
//! document of the trigger state.

use vstd::prelude::*;
use crate::json::{Json, JsonView, member, members_view};
use crate::trigger::State;

verus! {

/// The table of reading records.
pub const RECORD_TABLE: &'static str = "data";

/// The table of the trigger state.
pub const STATE_TABLE: &'static str = "kv";

/// The key of the trigger state in its table.
pub const STATE_KEY: &'static str = "state";

/// The flag as JSON: `null` where it was never set.
pub open spec fn flag_spec(triggered: Option<bool>) -> JsonView {
    match triggered {
        Some(b) => JsonView::Bool(b),
        None => JsonView::Null,
    }
}

/// The document of a trigger state: an object whose one member, `triggered`,
/// is `true`, `false` or `null`.
pub open spec fn state_document_spec(s: State) -> JsonView {
    JsonView::Object(map!["triggered"@ => flag_spec(s.triggered)])
}

/// The trigger state that a stored document holds. The document must be an
/// object; its member `triggered` must be `true`, `false` or `null`, or be
/// missing, which reads as `null`. Other members are ignored.
pub open spec fn stored_state_spec(doc: JsonView) -> Option<State> {
    match doc {
        JsonView::Object(m) => if !m.contains_key("triggered"@) {
            Some(State { triggered: None })
        } else {
            match m["triggered"@] {
                JsonView::Null => Some(State { triggered: None }),
                JsonView::Bool(b) => Some(State { triggered: Some(b) }),
                _ => None,
            }
        },
        _ => None,
    }
}

/// A state that was written is read back as it was.
pub proof fn law_state_survives(s: State)
    ensures
        stored_state_spec(state_document_spec(s)) == Some(s),
{
}

/// The document to store for a trigger state.
pub fn state_document(s: &State) -> (doc: Json)
    ensures
        doc@ == state_document_spec(*s),
{
    let flag = match s.triggered {
        Some(b) => Json::Bool(b),
        None => Json::Null,
    };
    let mut members: Vec<(String, Json)> = Vec::new();
    members.push(("triggered".to_owned(), flag));
    proof {
        let one = members@;
        assert(one.subrange(0, 0).len() == 0);
        assert(members_view(one) == members_view(one.subrange(0, 0)).insert(one[0].0@, one[0].1@));
        assert(members_view(one) == map!["triggered"@ => flag_spec(s.triggered)]);
    }
    Json::Object(members)
}

/// Reads a trigger state from a stored document. `None` means that the
/// document is not one of a trigger state.
pub fn stored_state(doc: &Json) -> (r: Option<State>)
    ensures
        r == stored_state_spec(doc@),
{
    match doc {
        Json::Object(members) => {
            let name = "triggered".to_owned();
            match member(members, &name) {
                None => Some(State { triggered: None }),
                Some(Json::Null) => Some(State { triggered: None }),
                Some(Json::Bool(b)) => Some(State { triggered: Some(*b) }),
                Some(_) => None,
            }
        },
        _ => None,
    }
}

} // verus!
