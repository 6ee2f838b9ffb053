//! Dispatch behaviour over a small resource tree.

use librebmc::models::computer_system::ComputerSystem;
use librebmc::models::computer_system_collection::ComputerSystemCollection;
use librebmc::models::service_root::ServiceRoot;
use librebmc::odata::Resource;
use librebmc::path::ResourcePath;
use librebmc::service::Method;
use librebmc::service::ODataResource;
use librebmc::service::Request;
use librebmc::service::ResourceService;

fn path(text: &str) -> ResourcePath {
    ResourcePath::new(text.to_string()).unwrap()
}

fn system(id: &str, name: &str) -> ComputerSystem {
    ComputerSystem::new(
        id.to_string(),
        name.to_string(),
        format!("SN-{id}"),
        format!("{id}.local"),
        "00000000-0000-0000-0000-000000000000".to_string(),
    )
    .unwrap()
}

/// A root envelope at `/root`, one collection envelope under it at
/// `items`, one leaf envelope under that at `42`: the leaf answers at
/// `/root/items/42`.
fn tree() -> ResourceService<ServiceRoot> {
    let mut collection = ComputerSystemCollection::new("Computer System Collection".to_string())
        .unwrap();
    collection.add_system(ODataResource(Resource::new(path("42"), system("42", "Unit 42"))));
    let mut root = ServiceRoot::default();
    root.systems(ODataResource(Resource::new(path("items"), collection)));
    ResourceService::new(ODataResource(Resource::new(path("/root"), root)))
}

fn get<T>(service: &ResourceService<T>, p: &str) -> librebmc::service::Response
where
    T: librebmc::odata::Serialize + librebmc::odata::ResourceMetadata + librebmc::service::Dispatch,
{
    service.handle(&Request { path: path(p), method: Method::Get })
}

#[test]
fn leaf_is_served_at_its_full_path() {
    let service = tree();
    let response = get(&service, "/root/items/42");
    assert_eq!(200, response.status);
    assert!(response.body.starts_with("{\"@odata.id\":\"/root/items/42\","));
    assert!(response.body.contains("\"Name\":\"Unit 42\""));
    assert!(response.body.contains("\"SerialNumber\":\"SN-42\""));
    assert!(response.body.contains("\"Hostname\":\"42.local\""));
}

#[test]
fn missing_member_yields_not_found() {
    let service = tree();
    let response = get(&service, "/root/items/43");
    assert_eq!(404, response.status);
    assert_eq!("", response.body);
}

#[test]
fn unsupported_method_yields_method_not_allowed_with_allow_header() {
    let service = tree();
    let response = service.handle(&Request { path: path("/root/items/42"), method: Method::Put });
    assert_eq!(405, response.status);
    assert_eq!("", response.body);
    assert_eq!(
        vec![("Allow".to_string(), "GET".to_string())],
        response.headers
    );
}

#[test]
fn each_level_of_the_tree_answers_reads_under_its_absolute_address() {
    let service = tree();
    let root = get(&service, "/root");
    assert_eq!(200, root.status);
    assert!(root.body.starts_with("{\"@odata.id\":\"/root\","));
    let collection = get(&service, "/root/items");
    assert_eq!(200, collection.status);
    assert!(collection.body.starts_with("{\"@odata.id\":\"/root/items\","));
    assert!(collection.body.contains("\"Members\":[{\"@odata.id\":\"/root/items/42\"}]"));
    let leaf = get(&service, "/root/items/42");
    assert_eq!(200, leaf.status);
    assert!(leaf.body.starts_with("{\"@odata.id\":\"/root/items/42\","));
}

#[test]
fn unrelated_path_yields_not_found() {
    let service = tree();
    assert_eq!(404, get(&service, "/elsewhere").status);
    assert_eq!(404, get(&service, "/roo").status);
    assert_eq!(404, get(&service, "/rooter").status);
}

#[test]
fn identity_is_stable_across_dispatch_calls() {
    let mut collection = ComputerSystemCollection::new("Systems".to_string()).unwrap();
    collection.add_system(ODataResource(Resource::new(path("42"), system("42", "Unit 42"))));
    let envelope = Resource::new(path("/root/items"), collection);
    assert_eq!("/root/items", envelope.identity().as_path().as_str());
    let wrapped = ODataResource(envelope);
    let service = ResourceService::new(wrapped);
    for _ in 0..3 {
        get(&service, "/root/items/42");
        get(&service, "/nowhere");
    }
    // handle takes the tree read-only, so the same service value still
    // answers and the identity it serves under is unchanged.
    assert_eq!(200, get(&service, "/root/items").status);
    let body = get(&service, "/root/items").body;
    assert!(body.starts_with("{\"@odata.id\":\"/root/items\","));
}

#[test]
fn overlapping_siblings_route_to_the_first_enumerated() {
    // Two members claim the same path: dispatch does not reject the
    // overlap, it serves whichever member is enumerated first.
    let mut collection = ComputerSystemCollection::new("Systems".to_string()).unwrap();
    collection.add_system(ODataResource(Resource::new(path("42"), system("42", "First"))));
    collection.add_system(ODataResource(Resource::new(path("42"), system("42", "Second"))));
    let service = ResourceService::new(ODataResource(Resource::new(
        path("/root"),
        {
            let mut root = ServiceRoot::default();
            root.systems(ODataResource(Resource::new(path("items"), collection)));
            root
        },
    )));
    let response = get(&service, "/root/items/42");
    assert_eq!(200, response.status);
    assert!(response.body.contains("\"Name\":\"First\""));
    assert!(!response.body.contains("\"Name\":\"Second\""));
}

#[test]
fn empty_collection_declines_every_member_path() {
    let collection = ComputerSystemCollection::new("Systems".to_string()).unwrap();
    let mut root = ServiceRoot::default();
    root.systems(ODataResource(Resource::new(path("items"), collection)));
    let service = ResourceService::new(ODataResource(Resource::new(path("/root"), root)));
    assert_eq!(200, get(&service, "/root/items").status);
    assert_eq!(404, get(&service, "/root/items/42").status);
}

#[test]
fn root_without_collection_declines_sub_paths() {
    let service = ResourceService::new(ODataResource(Resource::new(
        path("/root"),
        ServiceRoot::default(),
    )));
    assert_eq!(200, get(&service, "/root").status);
    assert_eq!(404, get(&service, "/root/items").status);
}
