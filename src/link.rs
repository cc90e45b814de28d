use vstd::prelude::*;

use vstd::string::StringExecFns;

use crate::response::{json_string, json_string_of};
use crate::storage::Cid;

verus! {

/// A request to archive a link, with the description it is searched by.
pub struct AddLink {
    pub link: String,
    pub description: String,
}

/// The payload stored beside a link's embedding: a JSON object with its
/// content identifier, its description and the original link.
pub open spec fn payload_text(link: Seq<char>, description: Seq<char>, cid: Seq<char>) -> Seq<
    char,
> {
    "{\"cid\":"@ + json_string_of(cid) + ",\"description\":"@ + json_string_of(description)
        + ",\"original_link\":"@ + json_string_of(link) + "}"@
}

impl AddLink {
    /// The payload stored for this link once its content is saved under `cid`.
    pub fn payload(&self, cid: &Cid) -> (r: String)
        ensures
            r@ == payload_text(self.link@, self.description@, cid.0@),
    {
        let mut r = "{\"cid\":".to_string();
        let c = json_string(cid.0.as_str());
        r.append(c.as_str());
        r.append(",\"description\":");
        let d = json_string(self.description.as_str());
        r.append(d.as_str());
        r.append(",\"original_link\":");
        let l = json_string(self.link.as_str());
        r.append(l.as_str());
        r.append("}");
        assert(r@ =~= payload_text(self.link@, self.description@, cid.0@));
        r
    }
}

} // verus!
