//! Type-safe identifiers for Datadog resources, so that IDs of different
//! resource types are not mixed up.
use vstd::prelude::*;
use crate::text::{dec_int, push_decimal_i64};

verus! {

/// Unique identifier for a Datadog monitor.
#[derive(Debug, Clone, Copy, PartialEq, Eq, Hash, Structural)]
pub struct MonitorId(pub i64);

impl MonitorId {
    /// The identifier in decimal notation.
    pub fn to_string(&self) -> (r: String)
        ensures
            r@ == dec_int(self.0 as int),
    {
        let mut s = String::new();
        push_decimal_i64(&mut s, self.0);
        assert(Seq::<char>::empty() + dec_int(self.0 as int) =~= dec_int(self.0 as int));
        s
    }
}

impl From<i64> for MonitorId {
    fn from(v: i64) -> (r: Self) {
        MonitorId(v)
    }
}

impl vstd::std_specs::convert::FromSpecImpl<i64> for MonitorId {
    open spec fn obeys_from_spec() -> bool {
        true
    }

    open spec fn from_spec(v: i64) -> Self {
        MonitorId(v)
    }
}

/// Unique identifier for a scheduled downtime.
#[derive(Debug, Clone, Copy, PartialEq, Eq, Hash, Structural)]
pub struct DowntimeId(pub i64);

impl DowntimeId {
    /// The identifier in decimal notation.
    pub fn to_string(&self) -> (r: String)
        ensures
            r@ == dec_int(self.0 as int),
    {
        let mut s = String::new();
        push_decimal_i64(&mut s, self.0);
        assert(Seq::<char>::empty() + dec_int(self.0 as int) =~= dec_int(self.0 as int));
        s
    }
}

impl From<i64> for DowntimeId {
    fn from(v: i64) -> (r: Self) {
        DowntimeId(v)
    }
}

impl vstd::std_specs::convert::FromSpecImpl<i64> for DowntimeId {
    open spec fn obeys_from_spec() -> bool {
        true
    }

    open spec fn from_spec(v: i64) -> Self {
        DowntimeId(v)
    }
}

/// Unique identifier for a notebook.
#[derive(Debug, Clone, Copy, PartialEq, Eq, Hash, Structural)]
pub struct NotebookId(pub i64);

impl NotebookId {
    /// The identifier in decimal notation.
    pub fn to_string(&self) -> (r: String)
        ensures
            r@ == dec_int(self.0 as int),
    {
        let mut s = String::new();
        push_decimal_i64(&mut s, self.0);
        assert(Seq::<char>::empty() + dec_int(self.0 as int) =~= dec_int(self.0 as int));
        s
    }
}

impl From<i64> for NotebookId {
    fn from(v: i64) -> (r: Self) {
        NotebookId(v)
    }
}

impl vstd::std_specs::convert::FromSpecImpl<i64> for NotebookId {
    open spec fn obeys_from_spec() -> bool {
        true
    }

    open spec fn from_spec(v: i64) -> Self {
        NotebookId(v)
    }
}

/// Unique identifier for a Datadog dashboard.
#[derive(Debug, Clone, PartialEq, Eq, Hash)]
pub struct DashboardId(pub String);

impl DashboardId {
    /// The identifier as text.
    pub fn to_string(&self) -> (r: String)
        ensures
            r@ == self.0@,
    {
        self.0.clone()
    }
}

impl From<String> for DashboardId {
    fn from(v: String) -> (r: Self) {
        DashboardId(v)
    }
}

impl vstd::std_specs::convert::FromSpecImpl<String> for DashboardId {
    open spec fn obeys_from_spec() -> bool {
        true
    }

    open spec fn from_spec(v: String) -> Self {
        DashboardId(v)
    }
}

/// Public ID for a Synthetics test.
#[derive(Debug, Clone, PartialEq, Eq, Hash)]
pub struct SyntheticsTestId(pub String);

impl SyntheticsTestId {
    /// The identifier as text.
    pub fn to_string(&self) -> (r: String)
        ensures
            r@ == self.0@,
    {
        self.0.clone()
    }
}

impl From<String> for SyntheticsTestId {
    fn from(v: String) -> (r: Self) {
        SyntheticsTestId(v)
    }
}

impl vstd::std_specs::convert::FromSpecImpl<String> for SyntheticsTestId {
    open spec fn obeys_from_spec() -> bool {
        true
    }

    open spec fn from_spec(v: String) -> Self {
        SyntheticsTestId(v)
    }
}

/// Unique identifier for an incident.
#[derive(Debug, Clone, PartialEq, Eq, Hash)]
pub struct IncidentId(pub String);

impl IncidentId {
    /// The identifier as text.
    pub fn to_string(&self) -> (r: String)
        ensures
            r@ == self.0@,
    {
        self.0.clone()
    }
}

impl From<String> for IncidentId {
    fn from(v: String) -> (r: Self) {
        IncidentId(v)
    }
}

impl vstd::std_specs::convert::FromSpecImpl<String> for IncidentId {
    open spec fn obeys_from_spec() -> bool {
        true
    }

    open spec fn from_spec(v: String) -> Self {
        IncidentId(v)
    }
}

/// Unique identifier for an SLO.
#[derive(Debug, Clone, PartialEq, Eq, Hash)]
pub struct SloId(pub String);

impl SloId {
    /// The identifier as text.
    pub fn to_string(&self) -> (r: String)
        ensures
            r@ == self.0@,
    {
        self.0.clone()
    }
}

impl From<String> for SloId {
    fn from(v: String) -> (r: Self) {
        SloId(v)
    }
}

impl vstd::std_specs::convert::FromSpecImpl<String> for SloId {
    open spec fn obeys_from_spec() -> bool {
        true
    }

    open spec fn from_spec(v: String) -> Self {
        SloId(v)
    }
}

/// Unique identifier for a team.
#[derive(Debug, Clone, PartialEq, Eq, Hash)]
pub struct TeamId(pub String);

impl TeamId {
    /// The identifier as text.
    pub fn to_string(&self) -> (r: String)
        ensures
            r@ == self.0@,
    {
        self.0.clone()
    }
}

impl From<String> for TeamId {
    fn from(v: String) -> (r: Self) {
        TeamId(v)
    }
}

impl vstd::std_specs::convert::FromSpecImpl<String> for TeamId {
    open spec fn obeys_from_spec() -> bool {
        true
    }

    open spec fn from_spec(v: String) -> Self {
        TeamId(v)
    }
}

/// Unique identifier for a user.
#[derive(Debug, Clone, PartialEq, Eq, Hash)]
pub struct UserId(pub String);

impl UserId {
    /// The identifier as text.
    pub fn to_string(&self) -> (r: String)
        ensures
            r@ == self.0@,
    {
        self.0.clone()
    }
}

impl From<String> for UserId {
    fn from(v: String) -> (r: Self) {
        UserId(v)
    }
}

impl vstd::std_specs::convert::FromSpecImpl<String> for UserId {
    open spec fn obeys_from_spec() -> bool {
        true
    }

    open spec fn from_spec(v: String) -> Self {
        UserId(v)
    }
}

} // verus!
