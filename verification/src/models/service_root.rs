//! The root resource of the service.
//!
//! The root names the systems collection through a link resolved
//! against its own path, and delegates every owned sub-path to that
//! collection.

use vstd::prelude::*;
use crate::json::json_safe;
use crate::json::json_string;
use crate::models::computer_system_collection::ComputerSystemCollection;
use crate::odata::ResourceMetadata;
use crate::odata::Serialize;
use crate::path::join_paths;
use crate::path::ResourcePath;
use crate::redfish::link_json;
use crate::service::Dispatch;
use crate::service::Method;
use crate::service::ODataResource;
use crate::service::Request;
use crate::service::Response;
use crate::service::ResponseModel;

verus! {

/// The root resource: service identity and the link to the systems
/// collection, when one is mounted.
pub struct ServiceRoot {
    pub id: String,
    pub name: String,
    pub redfish_version: String,
    pub uuid: String,
    pub systems: Option<ODataResource<ComputerSystemCollection>>,
}

impl ServiceRoot {
    /// A root with the given identity and no systems collection.
    /// Accepted only when every text can stand in a JSON string as it
    /// is.
    pub fn new(id: String, name: String, redfish_version: String, uuid: String) -> (r: Option<
        ServiceRoot,
    >)
        ensures
            match r {
                Some(root) => root == (ServiceRoot {
                    id,
                    name,
                    redfish_version,
                    uuid,
                    systems: None,
                }) && root.inv(),
                None => !(json_safe(id@) && json_safe(name@) && json_safe(redfish_version@)
                    && json_safe(uuid@)),
            },
    {
        if crate::json::is_json_safe(id.as_str()) && crate::json::is_json_safe(name.as_str())
            && crate::json::is_json_safe(redfish_version.as_str()) && crate::json::is_json_safe(
            uuid.as_str(),
        ) {
            Some(ServiceRoot { id, name, redfish_version, uuid, systems: None })
        } else {
            None
        }
    }

    /// Mounts the systems collection; every other attribute is kept.
    pub fn systems(&mut self, systems: ODataResource<ComputerSystemCollection>)
        ensures
            final(self).id == old(self).id,
            final(self).name == old(self).name,
            final(self).redfish_version == old(self).redfish_version,
            final(self).uuid == old(self).uuid,
            final(self).systems == Some(systems),
            old(self).inv() && systems.inv() ==> final(self).inv(),
    {
        self.systems = Some(systems);
    }
}

impl Default for ServiceRoot {
    /// The default identity of a root service, with no systems
    /// collection mounted.
    fn default() -> (r: Self)
        ensures
            r.id@ == "RootService"@,
            r.name@ == "Root Service"@,
            r.redfish_version@ == "1.6.0"@,
            r.uuid@ == "00000000-0000-0000-0000-000000000000"@,
            r.systems == None::<ODataResource<ComputerSystemCollection>>,
            r.inv(),
    {
        let r = ServiceRoot {
            id: String::from_str("RootService"),
            name: String::from_str("Root Service"),
            redfish_version: String::from_str("1.6.0"),
            uuid: String::from_str("00000000-0000-0000-0000-000000000000"),
            systems: None,
        };
        proof {
            reveal_strlit("RootService");
            reveal_strlit("Root Service");
            reveal_strlit("1.6.0");
            reveal_strlit("00000000-0000-0000-0000-000000000000");
            assert(json_safe(r.id@));
            assert(json_safe(r.name@));
            assert(json_safe(r.redfish_version@));
            assert(json_safe(r.uuid@));
        }
        r
    }
}

impl ResourceMetadata for ServiceRoot {
    open spec fn type_tag(&self) -> Seq<char> {
        "#ServiceRoot.v1_12_0.ServiceRoot"@
    }

    open spec fn inv(&self) -> bool {
        &&& json_safe(self.id@)
        &&& json_safe(self.name@)
        &&& json_safe(self.redfish_version@)
        &&& json_safe(self.uuid@)
        &&& match self.systems {
            Some(s) => s.0.wf(),
            None => true,
        }
    }

    fn type_tag_str(&self) -> (r: String) {
        String::from_str("#ServiceRoot.v1_12_0.ServiceRoot")
    }
}

impl Serialize for ServiceRoot {
    open spec fn field_count(&self) -> nat {
        if self.systems is Some {
            5
        } else {
            4
        }
    }

    open spec fn fields(&self, me: Seq<char>) -> Seq<(Seq<char>, Seq<char>)> {
        match self.systems {
            Some(s) => seq![
                ("Id"@, json_string(self.id@)),
                ("Name"@, json_string(self.name@)),
                ("RedfishVersion"@, json_string(self.redfish_version@)),
                ("Systems"@, link_json(join_paths(me, s.0.odata_id@))),
                ("UUID"@, json_string(self.uuid@)),
            ],
            None => seq![
                ("Id"@, json_string(self.id@)),
                ("Name"@, json_string(self.name@)),
                ("RedfishVersion"@, json_string(self.redfish_version@)),
                ("UUID"@, json_string(self.uuid@)),
            ],
        }
    }

    proof fn fields_count(&self, me: Seq<char>) {
    }

    fn serialize(&self, me: &ResourcePath, out: &mut String) {
        crate::json::append_string_field(out, "Id", self.id.as_str());
        crate::json::append_string_field(out, "Name", self.name.as_str());
        crate::json::append_string_field(out, "RedfishVersion", self.redfish_version.as_str());
        match &self.systems {
            Some(s) => {
                let link = s.0.identity().resolve(me);
                let link_text = link.to_json();
                crate::json::append_raw_field(out, "Systems", link_text.as_str());
            },
            None => {},
        }
        crate::json::append_string_field(out, "UUID", self.uuid.as_str());
        proof {
            reveal_with_fuel(crate::json::render_fields, 7);
            assert(final(out)@ =~= old(out)@ + crate::json::render_fields(self.fields(me@)));
        }
    }
}

impl Dispatch for ServiceRoot {
    /// The root owns no sub-path itself: a delegated remainder is
    /// answered by the systems collection — served at its absolute
    /// address, the root's address joined with its mount path — or
    /// declined when none is mounted.
    open spec fn route(&self, path: Seq<char>, method: Method, me: Seq<char>) -> Option<
        ResponseModel,
    > {
        match self.systems {
            Some(s) => s.route(path, method, join_paths(me, s.0.odata_id@)),
            None => None,
        }
    }

    fn dispatch(&self, path: &ResourcePath, request: &Request, me: &ResourcePath) -> (r: Option<
        Response,
    >) {
        match &self.systems {
            Some(s) => {
                let systems_abs = me.join(&s.0.odata_id);
                s.dispatch(path, request, &systems_abs)
            },
            None => None,
        }
    }
}

} // verus!
