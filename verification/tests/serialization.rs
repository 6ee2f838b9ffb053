//! Serialization behaviour of the envelope and the payload types.

use librebmc::models::computer_system::ComputerSystem;
use librebmc::models::computer_system_collection::ComputerSystemCollection;
use librebmc::models::person::Person;
use librebmc::models::service_root::ServiceRoot;
use librebmc::odata::Resource;
use librebmc::path::ResourcePath;
use librebmc::redfish::ServiceId;
use librebmc::service::ODataResource;

fn path(text: &str) -> ResourcePath {
    ResourcePath::new(text.to_string()).unwrap()
}

#[test]
fn serialize_correctness() {
    let resource: Resource<Person> = Resource::new(
        path("/Chuck"),
        Person::new("Chuck".to_string()).unwrap(),
    );
    let result = resource.to_json();
    assert_eq!(
        "{\"@odata.id\":\"/Chuck\",".to_string()
            + "\"@odata.type\":\"#Person\",\"Name\":\"Chuck\"}",
        result
    );
}

#[test]
fn computer_system_serializes_every_field() {
    let system = ComputerSystem::new(
        "42".to_string(),
        "Unit 42".to_string(),
        "SN-0042".to_string(),
        "unit42.local".to_string(),
        "00000000-0000-0000-0000-000000000000".to_string(),
    )
    .unwrap();
    let envelope = Resource::new(path("/root/items/42"), system);
    let text = envelope.to_json();
    assert_eq!(
        "{\"@odata.id\":\"/root/items/42\",\"@odata.type\":\"#ComputerSystem.v1_16_1.ComputerSystem\",\"SystemType\":\"Physical\",\"UUID\":\"00000000-0000-0000-0000-000000000000\",\"Status\":{\"State\":\"Enabled\",\"Health\":\"OK\",\"HealthRollup\":\"OK\"},\"Id\":\"42\",\"Name\":\"Unit 42\",\"SerialNumber\":\"SN-0042\",\"Hostname\":\"unit42.local\"}",
        text
    );
}

#[test]
fn collection_serializes_members_as_resolved_links() {
    let mut collection = ComputerSystemCollection::new("Computer System Collection".to_string())
        .unwrap();
    let member = ComputerSystem::new(
        "42".to_string(),
        "Unit 42".to_string(),
        "SN-0042".to_string(),
        "unit42.local".to_string(),
        "00000000-0000-0000-0000-000000000000".to_string(),
    )
    .unwrap();
    collection.add_system(ODataResource(Resource::new(path("42"), member)));
    let envelope = Resource::new(path("/root/items"), collection);
    let text = envelope.to_json();
    assert_eq!(
        "{\"@odata.id\":\"/root/items\",\"@odata.type\":\"#ComputerSystemCollection.ComputerSystemCollection\",\"Name\":\"Computer System Collection\",\"Members@odata.count\":1,\"Members\":[{\"@odata.id\":\"/root/items/42\"}]}",
        text
    );
}

#[test]
fn service_root_serializes_systems_link_resolved() {
    let mut root = ServiceRoot::default();
    let collection = ComputerSystemCollection::new("Systems".to_string()).unwrap();
    root.systems(ODataResource(Resource::new(path("items"), collection)));
    let envelope = Resource::new(path("/root"), root);
    let text = envelope.to_json();
    assert_eq!(
        "{\"@odata.id\":\"/root\",\"@odata.type\":\"#ServiceRoot.v1_12_0.ServiceRoot\",\"Id\":\"RootService\",\"Name\":\"Root Service\",\"RedfishVersion\":\"1.6.0\",\"Systems\":{\"@odata.id\":\"/root/items\"},\"UUID\":\"00000000-0000-0000-0000-000000000000\"}",
        text
    );
}

#[test]
fn service_root_without_systems_omits_the_link() {
    let root = ServiceRoot::default();
    let envelope = Resource::new(path("/root"), root);
    let text = envelope.to_json();
    assert_eq!(
        "{\"@odata.id\":\"/root\",\"@odata.type\":\"#ServiceRoot.v1_12_0.ServiceRoot\",\"Id\":\"RootService\",\"Name\":\"Root Service\",\"RedfishVersion\":\"1.6.0\",\"UUID\":\"00000000-0000-0000-0000-000000000000\"}",
        text
    );
}

#[test]
fn link_serializes_to_identity_object() {
    let link = ServiceId::new(path("/root/items/42"));
    assert_eq!("{\"@odata.id\":\"/root/items/42\"}", link.to_json());
}

#[test]
fn constructors_reject_text_that_would_break_the_wire_format() {
    assert!(ComputerSystemCollection::new("he said \"hi\"".to_string()).is_none());
    assert!(ServiceRoot::new(
        "Id".to_string(),
        "back\\slash".to_string(),
        "1.6.0".to_string(),
        "uuid".to_string()
    )
    .is_none());
    assert!(ComputerSystem::new(
        "42".to_string(),
        "tab\tseparated".to_string(),
        "SN".to_string(),
        "host".to_string(),
        "uuid".to_string()
    )
    .is_none());
}
