//! Redfish resource status.
//!
//! A Redfish payload may leave a property out or set it to `null`; the
//! status object as it is read keeps both apart (`Option<Option<T>>`:
//! `None` when absent, `Some(None)` when `null`). [`Status`] is the view
//! that users see, in which both read as "not provided".

use vstd::prelude::*;

verus! {

/// The known state of a resource (Redfish `Resource.State`).
#[derive(Clone, Copy, Debug, PartialEq, Eq, Structural)]
pub enum State {
    Enabled,
    Disabled,
    StandbyOffline,
    StandbySpare,
    InTest,
    Starting,
    Absent,
    UnavailableOffline,
    Deferring,
    Quiesced,
    Updating,
    Qualified,
    Degraded,
}

/// The health of a resource (Redfish `Resource.Health`).
#[derive(Clone, Copy, Debug, PartialEq, Eq, Structural)]
pub enum Health {
    OK,
    Warning,
    Critical,
}

/// A condition that requires attention (Redfish `Resource.Condition`).
#[derive(Clone, Debug)]
pub struct Condition {
    /// The identifier of the message that describes the condition.
    pub message_id: String,
    /// The human-readable message.
    pub message: Option<String>,
    /// The severity of the condition.
    pub severity: Option<Health>,
    /// The `@odata.id` of the resource that originated the condition.
    pub origin_of_condition: Option<String>,
    /// When the condition occurred.
    pub timestamp: Option<String>,
}

/// The `Status` object of a resource as it is read: each member may be
/// absent (`None`) or `null` (`Some(None)`).
#[derive(Clone, Debug)]
pub struct ResourceStatusSchema {
    pub state: Option<Option<State>>,
    pub health: Option<Option<Health>>,
    pub health_rollup: Option<Option<Health>>,
    pub conditions: Option<Option<Vec<Condition>>>,
}

/// The status and health of a resource and its children.
#[derive(Clone, Debug)]
pub struct Status<'a> {
    /// The state of the resource.
    pub state: Option<State>,
    /// The health state of this resource in the absence of its dependent resources.
    pub health: Option<Health>,
    /// The overall health state from the view of this resource.
    pub health_rollup: Option<Health>,
    /// Active conditions that require attention in this or a related resource.
    pub conditions: Option<&'a [Condition]>,
}

/// A member that is absent and one that is `null` both read as `None`.
pub open spec fn provided<T>(member: Option<Option<T>>) -> Option<T> {
    match member {
        Some(Some(v)) => Some(v),
        _ => None,
    }
}

impl<'a> Status<'a> {
    /// `self` is what `schema` reads as: every member that is absent or
    /// `null` in `schema` is `None` here, every other member is its value,
    /// and the conditions are the elements of the vector that `schema` holds.
    pub open spec fn reads(self, schema: ResourceStatusSchema) -> bool {
        &&& self.state == provided(schema.state)
        &&& self.health == provided(schema.health)
        &&& self.health_rollup == provided(schema.health_rollup)
        &&& match schema.conditions {
            Some(Some(v)) => self.conditions matches Some(c) && c@ == v@,
            _ => self.conditions is None,
        }
    }

    /// Reads the status of a resource out of its status object.
    pub fn from_schema(schema: &'a ResourceStatusSchema) -> (status: Status<'a>)
        ensures
            status.reads(*schema),
    {
        Status {
            state: match schema.state {
                Some(Some(s)) => Some(s),
                _ => None,
            },
            health: match schema.health {
                Some(Some(h)) => Some(h),
                _ => None,
            },
            health_rollup: match schema.health_rollup {
                Some(Some(h)) => Some(h),
                _ => None,
            },
            conditions: match &schema.conditions {
                Some(Some(v)) => Some(v.as_slice()),
                _ => None,
            },
        }
    }
}

/// Represents a Redfish resource that provides its status.
pub trait ResourceProvidesStatus {
    /// The status object that the resource carries, if any.
    spec fn status_schema(&self) -> Option<ResourceStatusSchema>;

    /// Required function. Must be implemented for Redfish resources
    /// that provide resource status.
    fn resource_status_ref(&self) -> (r: Option<&ResourceStatusSchema>)
        ensures
            match r {
                Some(s) => self.status_schema() == Some(*s),
                None => self.status_schema() is None,
            },
    ;

    /// Status of the resource if it is provided.
    fn status(&self) -> (r: Option<Status<'_>>)
        ensures
            match self.status_schema() {
                Some(schema) => r matches Some(status) && status.reads(schema),
                None => r is None,
            },
    {
        match self.resource_status_ref() {
            Some(schema) => Some(Status::from_schema(schema)),
            None => None,
        }
    }
}

/// The `Status` member of a resource payload: absent or present.
impl ResourceProvidesStatus for Option<ResourceStatusSchema> {
    open spec fn status_schema(&self) -> Option<ResourceStatusSchema> {
        *self
    }

    fn resource_status_ref(&self) -> (r: Option<&ResourceStatusSchema>) {
        match self {
            Some(schema) => Some(schema),
            None => None,
        }
    }
}

/// Each member of the status is the value of the same member of the status
/// object when it holds one, and `None` when it is absent or `null`,
/// whatever the other members hold; the conditions are every condition of
/// the object, in order.
pub proof fn law_from_schema_reads_each_member(schema: ResourceStatusSchema, status: Status)
    requires
        call_ensures(Status::from_schema, (&schema,), status),
    ensures
        forall|s: State| status.state == Some(s) <==> schema.state == Some(Some(s)),
        status.state is None <==> !(schema.state matches Some(Some(_))),
        forall|h: Health| status.health == Some(h) <==> schema.health == Some(Some(h)),
        status.health is None <==> !(schema.health matches Some(Some(_))),
        forall|h: Health| status.health_rollup == Some(h) <==> schema.health_rollup == Some(Some(h)),
        status.health_rollup is None <==> !(schema.health_rollup matches Some(Some(_))),
        schema.conditions matches Some(Some(v)) ==> status.conditions matches Some(c) && c@.len() == v@.len()
            && forall|i: int| 0 <= i < v@.len() ==> c@[i] == v@[i],
        !(schema.conditions matches Some(Some(_))) ==> status.conditions is None,
{
}

/// A resource that carries a status object gives that object, whatever
/// members it holds; one that carries none gives none.
pub proof fn law_status_ref_is_carried_object(
    carried: Option<ResourceStatusSchema>,
    r: Option<&ResourceStatusSchema>,
)
    requires
        call_ensures(<Option<ResourceStatusSchema> as ResourceProvidesStatus>::resource_status_ref, (&carried,), r),
    ensures
        match carried {
            Some(s) => r matches Some(x) && *x == s,
            None => r is None,
        },
{
}

/// The status of a resource that carries a status object reads each member
/// of that object, whatever members it holds; a resource that carries none
/// has no status.
pub proof fn law_status_reads_carried_object(carried: Option<ResourceStatusSchema>, r: Option<Status>)
    requires
        call_ensures(<Option<ResourceStatusSchema> as ResourceProvidesStatus>::status, (&carried,), r),
    ensures
        carried is None ==> r is None,
        carried matches Some(schema) ==> r matches Some(status) && {
            &&& forall|s: State| status.state == Some(s) <==> schema.state == Some(Some(s))
            &&& forall|h: Health| status.health == Some(h) <==> schema.health == Some(Some(h))
            &&& forall|h: Health| status.health_rollup == Some(h) <==> schema.health_rollup == Some(Some(h))
            &&& status.state is None <==> !(schema.state matches Some(Some(_)))
            &&& status.health is None <==> !(schema.health matches Some(Some(_)))
            &&& status.health_rollup is None <==> !(schema.health_rollup matches Some(Some(_)))
            &&& schema.conditions matches Some(Some(v)) ==> status.conditions matches Some(c) && c@.len()
                == v@.len() && forall|i: int| 0 <= i < v@.len() ==> c@[i] == v@[i]
            &&& !(schema.conditions matches Some(Some(_))) ==> status.conditions is None
        },
{
}

} // verus!
