//! The status of a resource.

use nv_redfish::resource::{
    Condition, Health, ResourceProvidesStatus, ResourceStatusSchema, State, Status,
};

fn condition(id: &str) -> Condition {
    Condition {
        message_id: id.to_string(),
        message: Some("A condition requires attention.".to_string()),
        severity: Some(Health::Warning),
        origin_of_condition: Some("/redfish/v1/Fabrics/NVLinkFabric_0".to_string()),
        timestamp: None,
    }
}

#[test]
fn status_of_present_members() {
    let schema = ResourceStatusSchema {
        state: Some(Some(State::Enabled)),
        health: Some(Some(Health::OK)),
        health_rollup: Some(Some(Health::Warning)),
        conditions: Some(Some(vec![condition("Base.1.0.ResourceEvent")])),
    };
    let carried = Some(schema);
    let status = carried.status().expect("fabric must include status");
    assert_eq!(status.state, Some(State::Enabled));
    assert_eq!(status.health, Some(Health::OK));
    assert_eq!(status.health_rollup, Some(Health::Warning));
    let conditions = status.conditions.expect("fabric status must include conditions");
    assert_eq!(conditions.len(), 1);
    assert_eq!(conditions[0].message_id, "Base.1.0.ResourceEvent");
    assert_eq!(conditions[0].severity, Some(Health::Warning));
    assert_eq!(
        conditions[0].origin_of_condition.as_deref(),
        Some("/redfish/v1/Fabrics/NVLinkFabric_0")
    );
}

#[test]
fn absent_and_null_members_read_alike() {
    let absent = ResourceStatusSchema { state: None, health: None, health_rollup: None, conditions: None };
    let null = ResourceStatusSchema {
        state: Some(None),
        health: Some(None),
        health_rollup: Some(None),
        conditions: Some(None),
    };
    for schema in [&absent, &null] {
        let status = Status::from_schema(schema);
        assert_eq!(status.state, None);
        assert_eq!(status.health, None);
        assert_eq!(status.health_rollup, None);
        assert!(status.conditions.is_none());
    }
}

#[test]
fn empty_conditions_are_provided() {
    let schema = ResourceStatusSchema {
        state: Some(Some(State::Absent)),
        health: None,
        health_rollup: Some(None),
        conditions: Some(Some(vec![])),
    };
    let status = Status::from_schema(&schema);
    assert_eq!(status.state, Some(State::Absent));
    assert_eq!(status.health, None);
    assert_eq!(status.health_rollup, None);
    assert_eq!(status.conditions.map(|c| c.len()), Some(0));
}

#[test]
fn resource_without_status_has_none() {
    let missing: Option<ResourceStatusSchema> = None;
    assert!(missing.resource_status_ref().is_none());
    assert!(missing.status().is_none());
}

#[test]
fn status_ref_is_the_carried_object() {
    let carried = Some(ResourceStatusSchema {
        state: Some(Some(State::Updating)),
        health: Some(Some(Health::Critical)),
        health_rollup: None,
        conditions: None,
    });
    let schema = carried.resource_status_ref().expect("status is carried");
    assert_eq!(schema.state, Some(Some(State::Updating)));
    let status = carried.status().expect("status is carried");
    assert_eq!(status.state, Some(State::Updating));
    assert_eq!(status.health, Some(Health::Critical));
    assert_eq!(status.health_rollup, None);
}
