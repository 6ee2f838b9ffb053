//! The resource envelope.
//!
//! A [`Resource`] binds one payload value to the absolute path that is
//! the resource's identity, together with the static type tag of the
//! payload's schema type.  It serializes as a JSON object whose first
//! two fields are the identity and the type tag, followed by exactly
//! the fields the payload declares.

use vstd::prelude::*;
use vstd::string::StringExecFns;
use crate::json::json_string;
use crate::json::render_field;
use crate::json::render_fields;
use crate::path::ResourcePath;
use crate::redfish::ServiceEndpoint;
use crate::redfish::ServiceId;

verus! {

/// Static metadata of a payload type: its schema type tag, and the
/// validity its construction establishes.
pub trait ResourceMetadata {
    /// The type tag identifying the payload's schema type.  Each
    /// implementation returns a constant of the type.
    spec fn type_tag(&self) -> Seq<char>;

    /// What construction establishes and serialization and dispatch
    /// rely on.
    spec fn inv(&self) -> bool;

    /// The type tag as text.
    fn type_tag_str(&self) -> (r: String)
        ensures
            r@ == self.type_tag(),
    ;
}

/// Envelope-directed serialization of a payload: the payload declares
/// how many fields it writes and writes exactly those.
pub trait Serialize: ResourceMetadata {
    /// The declared number of fields the payload contributes.
    spec fn field_count(&self) -> nat;

    /// The payload's fields, each a key and a rendered JSON value,
    /// given the absolute path `me` of the owning envelope, against
    /// which the payload resolves the links it embeds.
    spec fn fields(&self, me: Seq<char>) -> Seq<(Seq<char>, Seq<char>)>;

    /// The field-count contract: serialization writes exactly the
    /// declared number of fields.
    proof fn fields_count(&self, me: Seq<char>)
        requires
            self.inv(),
        ensures
            self.fields(me).len() == self.field_count(),
    ;

    /// Appends the payload's fields, each behind its separator.
    fn serialize(&self, me: &ResourcePath, out: &mut String)
        requires
            self.inv(),
            me.wf(),
        ensures
            final(out)@ == old(out)@ + render_fields(self.fields(me@)),
    ;
}

/// The serialization of a whole envelope: the identity field, the type
/// field, then the payload's own fields.
pub open spec fn envelope_json(
    path: Seq<char>,
    tag: Seq<char>,
    fields: Seq<(Seq<char>, Seq<char>)>,
) -> Seq<char> {
    seq!['{'] + json_string("@odata.id"@) + seq![':'] + json_string(path) + render_field(
        "@odata.type"@,
        json_string(tag),
    ) + render_fields(fields) + seq!['}']
}

/// A payload bound to its absolute path and type tag.
pub struct Resource<T: Serialize + ResourceMetadata> {
    pub resource: T,
    pub odata_id: ResourcePath,
    pub odata_type: String,
}

impl<T: Serialize + ResourceMetadata> Resource<T> {
    /// The envelope's validity: a normalized path, the tag of the
    /// payload's type, and a valid payload.
    pub open spec fn wf(&self) -> bool {
        &&& self.odata_id.wf()
        &&& self.odata_type@ == self.resource.type_tag()
        &&& self.resource.inv()
    }

    /// Binds `resource` to the absolute path `odata_id`; the type tag
    /// is taken from the payload's type.
    pub fn new(odata_id: ResourcePath, resource: T) -> (r: Self)
        requires
            odata_id.wf(),
            resource.inv(),
        ensures
            r.wf(),
            r.odata_id@ == odata_id@,
            r.resource == resource,
    {
        let odata_type = resource.type_tag_str();
        Resource { odata_id, resource, odata_type }
    }

    /// The payload, read-only.
    pub fn get(&self) -> (r: &T)
        ensures
            r == &self.resource,
    {
        &self.resource
    }

    /// A link to this resource, for a parent that references it
    /// without owning it.  The link carries exactly the envelope's
    /// path, however many reads came before.
    pub fn identity(&self) -> (r: ServiceId)
        ensures
            r@ == self.odata_id@,
    {
        ServiceId::new(self.odata_id.clone())
    }

    /// The envelope's serialization under the absolute address `me` it
    /// is served at: identity, type tag, then the payload's fields, as
    /// one JSON object.  The identity field carries `me`, and the
    /// payload resolves the links it embeds against `me`, so a nested
    /// resource — constructed with a mount-relative path — still
    /// serves absolute identities.
    pub fn to_json_at(&self, me: &ResourcePath) -> (r: String)
        requires
            self.wf(),
            me.wf(),
        ensures
            r@ == envelope_json(me@, self.resource.type_tag(), self.resource.fields(me@)),
    {
        let mut out = String::new();
        out.append("{");
        crate::json::append_json_string(&mut out, "@odata.id");
        out.append(":");
        crate::json::append_json_string(&mut out, me.as_str());
        crate::json::append_string_field(&mut out, "@odata.type", self.odata_type.as_str());
        self.resource.serialize(me, &mut out);
        out.append("}");
        proof {
            reveal_strlit("{");
            reveal_strlit(":");
            reveal_strlit("}");
            assert(out@ =~= envelope_json(me@, self.resource.type_tag(), self.resource.fields(me@)));
        }
        out
    }

    /// The envelope's serialization at its own stored path: the form
    /// a root envelope serves, whose stored path is its absolute
    /// address.
    pub fn to_json(&self) -> (r: String)
        requires
            self.wf(),
        ensures
            r@ == envelope_json(
                self.odata_id@,
                self.resource.type_tag(),
                self.resource.fields(self.odata_id@),
            ),
    {
        self.to_json_at(&self.odata_id)
    }
}

/// The field-count contract at the envelope: a valid envelope
/// serializes to exactly `2 + field_count` fields — the identity, the
/// type tag, and the declared fields of the payload.
pub proof fn lemma_envelope_field_count<T: Serialize + ResourceMetadata>(r: Resource<T>)
    requires
        r.wf(),
    ensures
        r.resource.fields(r.odata_id@).len() == r.resource.field_count(),
{
    r.resource.fields_count(r.odata_id@);
}

impl<T: Serialize + ResourceMetadata> ServiceEndpoint for Resource<T> {
    open spec fn id_spec(&self) -> Seq<char> {
        self.odata_id@
    }

    fn get_id(&self) -> (r: &ResourcePath) {
        let r = &self.odata_id;
        proof {
            assert(r@ == self.id_spec());
        }
        r
    }
}

} // verus!
