use postgres_topology_operator::types::ResourceMeta;

fn meta(name: Option<&str>, generate_name: Option<&str>) -> ResourceMeta {
    ResourceMeta {
        name: name.map(|n| n.to_string()),
        generate_name: generate_name.map(|n| n.to_string()),
        namespace: None,
        uid: None,
        deletion_requested: false,
    }
}

#[test]
fn name_any_prefers_name() {
    assert_eq!(meta(Some("a"), Some("b-")).name_any(), "a");
    assert_eq!(meta(None, Some("b-")).name_any(), "b-");
    assert_eq!(meta(None, None).name_any(), "");
}
