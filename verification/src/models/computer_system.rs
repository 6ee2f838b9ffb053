//! A computer system: a leaf resource with no sub-resources.

use vstd::prelude::*;
use vstd::string::StringExecFns;
use crate::json::json_safe;
use crate::json::json_string;
use crate::json::render_field;
use crate::odata::ResourceMetadata;
use crate::odata::Serialize;
use crate::path::ResourcePath;
use crate::service::Dispatch;
use crate::service::Method;
use crate::service::Request;
use crate::service::Response;
use crate::service::ResponseModel;

verus! {

/// The kind of a computer system.
#[derive(Clone, Copy, PartialEq, Eq, Structural, Debug)]
pub enum SystemType {
    Composed,
    DPU,
    OS,
    Physical,
    PhysicallyPartitioned,
    Virtual,
    VirtuallyPartitioned,
}

/// The name a system type shows on the wire.
pub open spec fn system_type_name(t: SystemType) -> Seq<char> {
    match t {
        SystemType::Composed => "Composed"@,
        SystemType::DPU => "DPU"@,
        SystemType::OS => "OS"@,
        SystemType::Physical => "Physical"@,
        SystemType::PhysicallyPartitioned => "PhysicallyPartitioned"@,
        SystemType::Virtual => "Virtual"@,
        SystemType::VirtuallyPartitioned => "VirtuallyPartitioned"@,
    }
}

impl SystemType {
    pub fn as_str(&self) -> (r: &'static str)
        ensures
            r@ == system_type_name(*self),
    {
        match self {
            SystemType::Composed => "Composed",
            SystemType::DPU => "DPU",
            SystemType::OS => "OS",
            SystemType::Physical => "Physical",
            SystemType::PhysicallyPartitioned => "PhysicallyPartitioned",
            SystemType::Virtual => "Virtual",
            SystemType::VirtuallyPartitioned => "VirtuallyPartitioned",
        }
    }
}

impl Default for SystemType {
    fn default() -> (r: Self)
        ensures
            r == SystemType::Physical,
    {
        SystemType::Physical
    }
}

/// The operational state of a resource.
#[derive(Clone, Copy, PartialEq, Eq, Structural, Debug)]
pub enum State {
    Absent,
    Deferring,
    Disabled,
    Enabled,
    InTest,
    Qualified,
    Quiesced,
    StandbyOffline,
    StandbySpare,
    Starting,
    UnavailableOffline,
    Updating,
}

/// The name a state shows on the wire.
pub open spec fn state_name(s: State) -> Seq<char> {
    match s {
        State::Absent => "Absent"@,
        State::Deferring => "Deferring"@,
        State::Disabled => "Disabled"@,
        State::Enabled => "Enabled"@,
        State::InTest => "InTest"@,
        State::Qualified => "Qualified"@,
        State::Quiesced => "Quiesced"@,
        State::StandbyOffline => "StandbyOffline"@,
        State::StandbySpare => "StandbySpare"@,
        State::Starting => "Starting"@,
        State::UnavailableOffline => "UnavailableOffline"@,
        State::Updating => "Updating"@,
    }
}

impl State {
    pub fn as_str(&self) -> (r: &'static str)
        ensures
            r@ == state_name(*self),
    {
        match self {
            State::Absent => "Absent",
            State::Deferring => "Deferring",
            State::Disabled => "Disabled",
            State::Enabled => "Enabled",
            State::InTest => "InTest",
            State::Qualified => "Qualified",
            State::Quiesced => "Quiesced",
            State::StandbyOffline => "StandbyOffline",
            State::StandbySpare => "StandbySpare",
            State::Starting => "Starting",
            State::UnavailableOffline => "UnavailableOffline",
            State::Updating => "Updating",
        }
    }
}

/// The health of a resource.
#[derive(Clone, Copy, PartialEq, Eq, Structural, Debug)]
pub enum Health {
    Critical,
    OK,
    Warning,
}

/// The name a health shows on the wire.
pub open spec fn health_name(h: Health) -> Seq<char> {
    match h {
        Health::Critical => "Critical"@,
        Health::OK => "OK"@,
        Health::Warning => "Warning"@,
    }
}

impl Health {
    pub fn as_str(&self) -> (r: &'static str)
        ensures
            r@ == health_name(*self),
    {
        match self {
            Health::Critical => "Critical",
            Health::OK => "OK",
            Health::Warning => "Warning",
        }
    }
}

/// The status block of a computer system.
#[derive(Clone, Copy, PartialEq, Eq, Structural, Debug)]
pub struct Status {
    pub state: State,
    pub health: Health,
    pub health_rollup: Health,
}

impl Default for Status {
    fn default() -> (r: Self)
        ensures
            r == (Status { state: State::Enabled, health: Health::OK, health_rollup: Health::OK }),
    {
        Status { state: State::Enabled, health: Health::OK, health_rollup: Health::OK }
    }
}

/// The JSON object a status serializes to.
pub open spec fn status_json(s: Status) -> Seq<char> {
    seq!['{'] + json_string("State"@) + seq![':'] + json_string(state_name(s.state)) + render_field(
        "Health"@,
        json_string(health_name(s.health)),
    ) + render_field("HealthRollup"@, json_string(health_name(s.health_rollup))) + seq!['}']
}

impl Status {
    /// The status as a JSON object.
    pub fn to_json(&self) -> (r: String)
        ensures
            r@ == status_json(*self),
    {
        let mut out = String::new();
        out.append("{");
        crate::json::append_json_string(&mut out, "State");
        out.append(":");
        crate::json::append_json_string(&mut out, self.state.as_str());
        crate::json::append_string_field(&mut out, "Health", self.health.as_str());
        crate::json::append_string_field(&mut out, "HealthRollup", self.health_rollup.as_str());
        out.append("}");
        proof {
            reveal_strlit("{");
            reveal_strlit(":");
            reveal_strlit("}");
            assert(out@ =~= status_json(*self));
        }
        out
    }
}

/// A computer system resource: a pure leaf, dispatching no sub-paths.
pub struct ComputerSystem {
    pub system_type: SystemType,
    pub uuid: String,
    pub status: Status,
    pub id: String,
    pub name: String,
    pub serial_number: String,
    pub hostname: String,
}

impl ComputerSystem {
    /// A system with the given identity and naming, the defaults for
    /// the rest.  Accepted only when every text can stand in a JSON
    /// string as it is.
    pub fn new(id: String, name: String, serial_number: String, hostname: String, uuid: String) -> (r:
        Option<ComputerSystem>)
        ensures
            match r {
                Some(cs) => cs == (ComputerSystem {
                    system_type: SystemType::Physical,
                    uuid,
                    status: Status {
                        state: State::Enabled,
                        health: Health::OK,
                        health_rollup: Health::OK,
                    },
                    id,
                    name,
                    serial_number,
                    hostname,
                }) && cs.inv(),
                None => !(json_safe(id@) && json_safe(name@) && json_safe(serial_number@)
                    && json_safe(hostname@) && json_safe(uuid@)),
            },
    {
        if crate::json::is_json_safe(id.as_str()) && crate::json::is_json_safe(name.as_str())
            && crate::json::is_json_safe(serial_number.as_str()) && crate::json::is_json_safe(
            hostname.as_str(),
        ) && crate::json::is_json_safe(uuid.as_str()) {
            Some(
                ComputerSystem {
                    system_type: SystemType::default(),
                    uuid,
                    status: Status::default(),
                    id,
                    name,
                    serial_number,
                    hostname,
                },
            )
        } else {
            None
        }
    }
}

impl ResourceMetadata for ComputerSystem {
    open spec fn type_tag(&self) -> Seq<char> {
        "#ComputerSystem.v1_16_1.ComputerSystem"@
    }

    open spec fn inv(&self) -> bool {
        &&& json_safe(self.uuid@)
        &&& json_safe(self.id@)
        &&& json_safe(self.name@)
        &&& json_safe(self.serial_number@)
        &&& json_safe(self.hostname@)
    }

    fn type_tag_str(&self) -> (r: String) {
        String::from_str("#ComputerSystem.v1_16_1.ComputerSystem")
    }
}

impl Serialize for ComputerSystem {
    open spec fn field_count(&self) -> nat {
        7
    }

    open spec fn fields(&self, me: Seq<char>) -> Seq<(Seq<char>, Seq<char>)> {
        seq![
            ("SystemType"@, json_string(system_type_name(self.system_type))),
            ("UUID"@, json_string(self.uuid@)),
            ("Status"@, status_json(self.status)),
            ("Id"@, json_string(self.id@)),
            ("Name"@, json_string(self.name@)),
            ("SerialNumber"@, json_string(self.serial_number@)),
            ("Hostname"@, json_string(self.hostname@)),
        ]
    }

    proof fn fields_count(&self, me: Seq<char>) {
    }

    fn serialize(&self, me: &ResourcePath, out: &mut String) {
        crate::json::append_string_field(out, "SystemType", self.system_type.as_str());
        crate::json::append_string_field(out, "UUID", self.uuid.as_str());
        let status = self.status.to_json();
        crate::json::append_raw_field(out, "Status", status.as_str());
        crate::json::append_string_field(out, "Id", self.id.as_str());
        crate::json::append_string_field(out, "Name", self.name.as_str());
        crate::json::append_string_field(out, "SerialNumber", self.serial_number.as_str());
        crate::json::append_string_field(out, "Hostname", self.hostname.as_str());
        proof {
            reveal_with_fuel(crate::json::render_fields, 9);
            assert(final(out)@ =~= old(out)@ + crate::json::render_fields(
                self.fields(me@),
            ));
        }
    }
}

impl Dispatch for ComputerSystem {
    /// A leaf owns no sub-path: every delegated remainder is declined.
    open spec fn route(&self, path: Seq<char>, method: Method, me: Seq<char>) -> Option<
        ResponseModel,
    > {
        None
    }

    fn dispatch(&self, path: &ResourcePath, request: &Request, me: &ResourcePath) -> (r: Option<
        Response,
    >) {
        None
    }
}

impl Clone for ComputerSystem {
    fn clone(&self) -> (r: Self)
        ensures
            r == *self,
    {
        let r = ComputerSystem {
            system_type: self.system_type,
            uuid: self.uuid.clone(),
            status: self.status,
            id: self.id.clone(),
            name: self.name.clone(),
            serial_number: self.serial_number.clone(),
            hostname: self.hostname.clone(),
        };
        proof {
            assert(r == *self);
        }
        r
    }
}

} // verus!
