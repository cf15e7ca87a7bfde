//! Excavation-permit rules: the records a permit check reports and the
//! rules an excavation polygon is held to.

use vstd::prelude::*;
use crate::text::{hundredths_text, push_hundredths, round_div};

verus! {

/// Failures of the permitting collaborators (projection, validation, parcel
/// lookup), each with a description.
#[derive(Debug, Clone)]
pub enum ComplianceError {
    ProjectionError(String),
    ValidationError(String),
    WfsError(String),
}

impl ComplianceError {
    /// The description a user is shown.
    pub open spec fn description(&self) -> Seq<char> {
        match self {
            ComplianceError::ProjectionError(m) => "Projection error: "@ + m@,
            ComplianceError::ValidationError(m) => "Validation error: "@ + m@,
            ComplianceError::WfsError(m) => "WFS error: "@ + m@,
        }
    }

    /// Renders the error for a user.
    pub fn describe(&self) -> (r: String)
        ensures
            r@ == self.description(),
    {
        let (prefix, detail) = match self {
            ComplianceError::ProjectionError(m) => ("Projection error: ", m),
            ComplianceError::ValidationError(m) => ("Validation error: ", m),
            ComplianceError::WfsError(m) => ("WFS error: ", m),
        };
        prefix.to_owned().concat(detail.as_str())
    }
}

/// One broken rule: a machine-readable code and a human-readable message.
#[derive(Debug, Clone)]
pub struct ValidationError {
    pub code: String,
    pub message: String,
}

/// A land parcel as the parcel registry describes it.
#[derive(Debug, Clone)]
pub struct MnParcel {
    pub pin: String,
    pub address: Option<String>,
    pub owner: Option<String>,
}

/// Acres in a billion square metres (one square metre is 0.000247105 acre).
pub const ACRES_PER_GIGA_SQ_M: u64 = 247105;

/// The largest area of a standard ticket, in acres.
pub const AREA_LIMIT_ACRES: u64 = 2;

/// The most vertices an excavation polygon may have.
pub const MAX_VERTICES: usize = 1000;

/// Whether an area in whole square metres exceeds the acre limit.
pub open spec fn area_exceeds_limit(area_sq_m: nat) -> bool {
    area_sq_m * ACRES_PER_GIGA_SQ_M > AREA_LIMIT_ACRES * 1_000_000_000
}

/// An area in whole square metres, in hundredths of an acre, rounded to the
/// nearest hundredth (halves up).
pub open spec fn area_hundredths_of_acre(area_sq_m: nat) -> nat {
    round_div(area_sq_m * ACRES_PER_GIGA_SQ_M, 10_000_000) as nat
}

/// The message for an area of `whole.hundredths` acres over the limit.
pub open spec fn area_limit_text(whole: nat, hundredths: nat) -> Seq<char> {
    "Area "@ + hundredths_text(whole, hundredths)
        + " acres exceeds the 2.0 acre limit for standard tickets."@
}

/// The (code, message) pairs for an excavation polygon, in the order the
/// rules are checked: ring closure, area, vertex count.
pub open spec fn excavation_findings(ring_closed: bool, area_sq_m: nat, vertex_count: nat) -> Seq<
    (Seq<char>, Seq<char>),
> {
    let acres = area_hundredths_of_acre(area_sq_m);
    (if ring_closed {
        seq![]
    } else {
        seq![("TOPOLOGY_OPEN"@, "Polygon ring is not closed."@)]
    }) + (if area_exceeds_limit(area_sq_m) {
        seq![("AREA_LIMIT_EXCEEDED"@, area_limit_text(acres / 100, acres % 100))]
    } else {
        seq![]
    }) + (if vertex_count > MAX_VERTICES {
        seq![("VERTEX_LIMIT_EXCEEDED"@, "Polygon has too many vertices (> 1000)."@)]
    } else {
        seq![]
    })
}

/// The (code, message) pairs of a list of findings.
pub open spec fn finding_texts(v: Seq<ValidationError>) -> Seq<(Seq<char>, Seq<char>)> {
    v.map_values(|e: ValidationError| (e.code@, e.message@))
}

fn finding(code: &str, message: String) -> (r: ValidationError)
    ensures
        r.code@ == code@,
        r.message@ == message@,
{
    ValidationError { code: code.to_owned(), message }
}

/// Holds an excavation polygon to the standard-ticket rules: its ring must be
/// closed, its area (in whole square metres, measured in a metric projection)
/// must not exceed two acres, and it must have at most a thousand vertices.
/// Returns one finding per broken rule, in that order.
pub fn validate_excavation_area(ring_closed: bool, area_sq_m: u64, vertex_count: usize) -> (r: Vec<
    ValidationError,
>)
    ensures
        finding_texts(r@) == excavation_findings(ring_closed, area_sq_m as nat, vertex_count as nat),
{
    let mut errors: Vec<ValidationError> = Vec::new();
    if !ring_closed {
        errors.push(finding("TOPOLOGY_OPEN", "Polygon ring is not closed.".to_owned()));
    }
    proof {
        assert(area_sq_m * ACRES_PER_GIGA_SQ_M <= u64::MAX * ACRES_PER_GIGA_SQ_M) by (nonlinear_arith)
            requires
                area_sq_m <= u64::MAX,
        ;
    }
    let scaled = area_sq_m as u128 * ACRES_PER_GIGA_SQ_M as u128;
    if scaled > AREA_LIMIT_ACRES as u128 * 1_000_000_000 {
        let acres = (2 * scaled + 10_000_000) / 20_000_000;
        let mut message = String::new();
        message.append("Area ");
        push_hundredths(&mut message, acres / 100, acres % 100);
        message.append(" acres exceeds the 2.0 acre limit for standard tickets.");
        assert(message@ =~= area_limit_text((acres / 100) as nat, (acres % 100) as nat));
        errors.push(finding("AREA_LIMIT_EXCEEDED", message));
    }
    if vertex_count > MAX_VERTICES {
        errors.push(
            finding("VERTEX_LIMIT_EXCEEDED", "Polygon has too many vertices (> 1000).".to_owned()),
        );
    }
    assert(finding_texts(errors@) =~= excavation_findings(
        ring_closed,
        area_sq_m as nat,
        vertex_count as nat,
    ));
    errors
}

} // verus!
