//! Displays, as the operating system describes them.
use vstd::prelude::*;

use crate::capture::error::CaptureError;

verus! {

/// One display at the moment it was enumerated. A snapshot: it is never
/// updated, a later enumeration gives new values.
#[derive(Clone, Debug, PartialEq, Eq)]
pub struct Display {
    /// The identifier that the operating system gives the display.
    pub id: u32,
    /// Width in pixels.
    pub width: u32,
    /// Height in pixels.
    pub height: u32,
    /// Pixels per point, in hundredths: 200 for a display that draws two
    /// pixels for each point.
    pub scale_percent: u32,
    /// The name shown to the user.
    pub name: String,
}

/// What the operating system answered when asked for its displays.
#[derive(Debug)]
pub enum DisplayQuery {
    /// The query itself failed.
    Failed,
    /// The displays that are attached now.
    Answered(Vec<Display>),
}

/// The displays of one enumeration, or `PlatformError` if the query failed.
///
/// Nothing is kept between two calls: the result holds exactly what this
/// answer holds, in its order.
pub fn list_displays(answer: DisplayQuery) -> (displays: Result<Vec<Display>, CaptureError>)
    ensures
        displays == match answer {
            DisplayQuery::Failed => Err::<Vec<Display>, CaptureError>(CaptureError::PlatformError),
            DisplayQuery::Answered(found) => Ok::<Vec<Display>, CaptureError>(found),
        },
{
    match answer {
        DisplayQuery::Failed => Err(CaptureError::PlatformError),
        DisplayQuery::Answered(found) => Ok(found),
    }
}

} // verus!
