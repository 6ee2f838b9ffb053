//! Cross-references between resources.
//!
//! A [`ServiceId`] is an immutable link: a path held only to name
//! another resource.  It can resolve itself against a mount root and
//! serialize itself as a single-field JSON object carrying the path.

use vstd::prelude::*;
use vstd::string::StringExecFns;
use crate::json::json_string;
use crate::path::join_paths;
use crate::path::wf_path;
use crate::path::ResourcePath;

verus! {

/// The JSON form of a link: an object holding only the identity field.
pub open spec fn link_json(p: Seq<char>) -> Seq<char> {
    seq!['{'] + json_string("@odata.id"@) + seq![':'] + json_string(p) + seq!['}']
}

/// An immutable reference to a resource by its path.
pub struct ServiceId {
    odata_id: ResourcePath,
}

impl View for ServiceId {
    type V = Seq<char>;

    closed spec fn view(&self) -> Seq<char> {
        self.odata_id@
    }
}

impl ServiceId {
    pub open spec fn wf(&self) -> bool {
        wf_path(self@)
    }

    pub fn new(odata_id: ResourcePath) -> (r: ServiceId)
        ensures
            r@ == odata_id@,
    {
        ServiceId { odata_id }
    }

    /// The underlying path, read-only.
    pub fn as_path(&self) -> (r: &ResourcePath)
        ensures
            r@ == self@,
    {
        &self.odata_id
    }

    /// A new link naming the same resource relative to `root`: the
    /// root joined with this link's path, a single leading separator
    /// stripped before joining.  The link itself is left untouched.
    pub fn resolve(&self, root: &ResourcePath) -> (r: ServiceId)
        requires
            self.wf(),
            root.wf(),
        ensures
            r@ == join_paths(root@, self@),
            r.wf(),
    {
        ServiceId { odata_id: root.join(&self.odata_id) }
    }

    /// The link as a JSON object holding only the identity field.
    pub fn to_json(&self) -> (r: String)
        ensures
            r@ == link_json(self@),
    {
        let mut out = String::new();
        out.append("{");
        crate::json::append_json_string(&mut out, "@odata.id");
        out.append(":");
        crate::json::append_json_string(&mut out, self.odata_id.as_str());
        out.append("}");
        proof {
            reveal_strlit("{");
            reveal_strlit(":");
            reveal_strlit("}");
            assert(out@ =~= link_json(self@));
        }
        out
    }
}

impl Clone for ServiceId {
    fn clone(&self) -> (r: Self)
        ensures
            r@ == self@,
    {
        ServiceId { odata_id: self.odata_id.clone() }
    }
}

/// Read access to the exact path a service endpoint answers at.
pub trait ServiceEndpoint {
    /// The endpoint's path.
    spec fn id_spec(&self) -> Seq<char>;

    fn get_id(&self) -> (r: &ResourcePath)
        ensures
            r@ == self.id_spec(),
    ;
}

} // verus!
