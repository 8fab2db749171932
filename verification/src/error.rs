use vstd::prelude::*;

verus! {

/// Terminal errors surfaced by the proxy core.
///
/// `Exhausted` is the single failure the tiered resolver reports once every
/// source has been tried; the remaining variants come from request routing.
#[derive(Clone, Copy, Debug, PartialEq, Eq, Structural)]
pub enum ProxyError {
    /// The path matched no route.
    NotFound,
    /// A route matched but its element identifier segment was missing.
    InvalidElementId,
    /// A route matched but its gameweek segment was missing.
    InvalidGameweek,
    /// A picks path did not have exactly a manager id and a gameweek.
    InvalidPicksPath,
    /// A manager sub-resource other than transfers or history was asked for.
    InvalidManagerEndpoint,
    /// A manager path had too many or too few segments.
    InvalidManagerPath,
    /// A league path had an unrecognised shape.
    InvalidLeaguePath,
    /// Every tier of the fallback chain failed or was unavailable.
    Exhausted,
}

impl ProxyError {
    /// The client-visible status code: only an unroutable path maps to 404,
    /// every other failure is reported as a server-side error.
    pub fn status_code(&self) -> (r: u16)
        ensures
            r == (if self is NotFound { 404u16 } else { 500u16 }),
    {
        match self {
            ProxyError::NotFound => 404,
            _ => 500,
        }
    }

    /// The diagnostic message for this error.
    pub fn message(&self) -> (r: &'static str)
        ensures
            self is NotFound ==> r@ == "Not Found"@,
            self is InvalidElementId ==> r@ == "Invalid element ID"@,
            self is InvalidGameweek ==> r@ == "Invalid gameweek"@,
            self is InvalidPicksPath ==> r@ == "Invalid picks path"@,
            self is InvalidManagerEndpoint ==> r@ == "Invalid manager endpoint"@,
            self is InvalidManagerPath ==> r@ == "Invalid manager path"@,
            self is InvalidLeaguePath ==> r@ == "Invalid league path"@,
            self is Exhausted ==> r@ == "Failed to fetch data from all available sources"@,
    {
        match self {
            ProxyError::NotFound => "Not Found",
            ProxyError::InvalidElementId => "Invalid element ID",
            ProxyError::InvalidGameweek => "Invalid gameweek",
            ProxyError::InvalidPicksPath => "Invalid picks path",
            ProxyError::InvalidManagerEndpoint => "Invalid manager endpoint",
            ProxyError::InvalidManagerPath => "Invalid manager path",
            ProxyError::InvalidLeaguePath => "Invalid league path",
            ProxyError::Exhausted => "Failed to fetch data from all available sources",
        }
    }
}

} // verus!
