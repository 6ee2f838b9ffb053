//! The field-count contract, checked on the wire: for every payload
//! type, the serialized envelope parses as a JSON object holding the
//! two envelope fields plus exactly the payload's declared count.

use librebmc::models::computer_system::ComputerSystem;
use librebmc::models::computer_system_collection::ComputerSystemCollection;
use librebmc::models::person::Person;
use librebmc::models::service_root::ServiceRoot;
use librebmc::odata::Resource;
use librebmc::path::ResourcePath;
use librebmc::service::Method;
use librebmc::service::ODataResource;
use librebmc::service::Request;
use librebmc::service::ResourceService;

fn path(text: &str) -> ResourcePath {
    ResourcePath::new(text.to_string()).unwrap()
}

fn object_field_count(text: &str) -> usize {
    let value: serde_json::Value = serde_json::from_str(text).unwrap();
    value.as_object().unwrap().len()
}

#[test]
fn computer_system_writes_its_declared_seven_fields() {
    let system = ComputerSystem::new(
        "42".to_string(),
        "Unit 42".to_string(),
        "SN-0042".to_string(),
        "unit42.local".to_string(),
        "00000000-0000-0000-0000-000000000000".to_string(),
    )
    .unwrap();
    let text = Resource::new(path("/root/items/42"), system).to_json();
    assert_eq!(2 + 7, object_field_count(&text));
}

#[test]
fn person_writes_its_declared_one_field() {
    let person = Person::new("Chuck".to_string()).unwrap();
    let text = Resource::new(path("/Chuck"), person).to_json();
    assert_eq!(2 + 1, object_field_count(&text));
}

#[test]
fn collection_writes_its_declared_three_fields() {
    let mut collection = ComputerSystemCollection::new("Systems".to_string()).unwrap();
    let member = ComputerSystem::new(
        "42".to_string(),
        "Unit 42".to_string(),
        "SN-0042".to_string(),
        "unit42.local".to_string(),
        "00000000-0000-0000-0000-000000000000".to_string(),
    )
    .unwrap();
    collection.add_system(ODataResource(Resource::new(path("42"), member)));
    let text = Resource::new(path("/root/items"), collection).to_json();
    assert_eq!(2 + 3, object_field_count(&text));
}

#[test]
fn service_root_with_systems_writes_its_declared_five_fields() {
    let mut root = ServiceRoot::default();
    let collection = ComputerSystemCollection::new("Systems".to_string()).unwrap();
    root.systems(ODataResource(Resource::new(path("items"), collection)));
    let text = Resource::new(path("/root"), root).to_json();
    assert_eq!(2 + 5, object_field_count(&text));
}

#[test]
fn service_root_without_systems_writes_its_declared_four_fields() {
    let root = ServiceRoot::default();
    let text = Resource::new(path("/root"), root).to_json();
    assert_eq!(2 + 4, object_field_count(&text));
}

#[test]
fn served_body_round_trips_through_json() {
    let system = ComputerSystem::new(
        "42".to_string(),
        "Unit 42".to_string(),
        "SN-0042".to_string(),
        "unit42.local".to_string(),
        "00000000-0000-0000-0000-000000000000".to_string(),
    )
    .unwrap();
    let service = ResourceService::new(ODataResource(Resource::new(path("/root"), {
        let mut collection = ComputerSystemCollection::new("Systems".to_string()).unwrap();
        collection.add_system(ODataResource(Resource::new(path("42"), system)));
        let mut root = ServiceRoot::default();
        root.systems(ODataResource(Resource::new(path("items"), collection)));
        root
    })));
    let response = service.handle(&Request { path: path("/root/items/42"), method: Method::Get });
    assert_eq!(200, response.status);
    let value: serde_json::Value = serde_json::from_str(&response.body).unwrap();
    let object = value.as_object().unwrap();
    assert_eq!(2 + 7, object.len());
    assert_eq!("/root/items/42", object.get("@odata.id").unwrap().as_str().unwrap());
    assert_eq!(
        "#ComputerSystem.v1_16_1.ComputerSystem",
        object.get("@odata.type").unwrap().as_str().unwrap()
    );
    assert_eq!("Unit 42", object.get("Name").unwrap().as_str().unwrap());
    assert_eq!("Enabled", object.get("Status").unwrap()["State"].as_str().unwrap());
}

#[test]
fn member_count_renders_multi_digit_numbers_exactly() {
    let mut collection = ComputerSystemCollection::new("Systems".to_string()).unwrap();
    for i in 0..12 {
        let id = format!("{i}");
        let member = ComputerSystem::new(
            id.clone(),
            format!("Unit {i}"),
            format!("SN-{i}"),
            format!("{i}.local"),
            "00000000-0000-0000-0000-000000000000".to_string(),
        )
        .unwrap();
        collection.add_system(ODataResource(Resource::new(
            ResourcePath::new(id).unwrap(),
            member,
        )));
    }
    let text = Resource::new(path("/root/items"), collection).to_json();
    assert!(text.contains("\"Members@odata.count\":12,"));
    let value: serde_json::Value = serde_json::from_str(&text).unwrap();
    assert_eq!(12, value["Members@odata.count"].as_u64().unwrap());
    assert_eq!(12, value["Members"].as_array().unwrap().len());
}
