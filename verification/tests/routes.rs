use kugou_api::routes::{module_to_route, modules, route_to_module, supports};

#[test]
fn route_mapping_matches_node_file_convention() {
    assert_eq!(module_to_route("user_cloud_url"), "/user/cloud/url");
    assert_eq!(route_to_module("/user/cloud/url"), "user_cloud_url");
}

#[test]
fn manifest_only_lists_implemented_handlers() {
    let modules = modules().expect("native manifest should be valid JSON");
    assert_eq!(modules.len(), 145);
    assert!(modules.iter().all(|module| supports(module)));
}
