use vstd::prelude::*;

verus! {

/// The error taxonomy of one aggregation run.
///
/// `InvalidConfiguration`, `PrimaryResolutionFailure`,
/// `PrimaryPaginationFailure` and `PageCountConsistencyViolation` are fatal:
/// they abort the whole run. The organization-scoped failures are absorbed
/// where they arise (the affected organization contributes no repositories)
/// and never escape the resolver or the aggregator; they exist so that the
/// surrounding program can log them.
#[derive(Debug, Clone, Copy, PartialEq, Eq, Structural)]
pub enum Error {
    /// The configured page size was zero; reported before any request.
    InvalidConfiguration,
    /// The root user could not be resolved.
    PrimaryResolutionFailure,
    /// A page fetch for the root user's own repositories failed.
    PrimaryPaginationFailure,
    /// The list of organizations could not be fetched (absorbed).
    OrganizationDiscoveryFailure,
    /// One organization's account record could not be resolved (absorbed).
    OrganizationResolutionFailure,
    /// A page fetch for one organization's repositories failed (absorbed).
    OrganizationPaginationFailure,
    /// A page other than the last returned fewer items than the page size.
    PageCountConsistencyViolation,
    /// The underlying transport or decoder failed.
    ApiFailure,
}

impl Error {
    /// A fixed description of the error, for reports and logs.
    pub fn message(&self) -> (r: &'static str)
        ensures
            r@ == self.spec_message(),
    {
        match self {
            Error::InvalidConfiguration => "PageSize must be greater than 0",
            Error::PrimaryResolutionFailure => "could not resolve the user",
            Error::PrimaryPaginationFailure => "could not fetch the user's repositories",
            Error::OrganizationDiscoveryFailure => "could not list the user's organizations",
            Error::OrganizationResolutionFailure => "could not resolve an organization",
            Error::OrganizationPaginationFailure => "could not fetch an organization's repositories",
            Error::PageCountConsistencyViolation => "a page which wasn't the last one came back short",
            Error::ApiFailure => "the API request failed",
        }
    }

    pub open spec fn spec_message(&self) -> Seq<char> {
        match self {
            Error::InvalidConfiguration => "PageSize must be greater than 0"@,
            Error::PrimaryResolutionFailure => "could not resolve the user"@,
            Error::PrimaryPaginationFailure => "could not fetch the user's repositories"@,
            Error::OrganizationDiscoveryFailure => "could not list the user's organizations"@,
            Error::OrganizationResolutionFailure => "could not resolve an organization"@,
            Error::OrganizationPaginationFailure => "could not fetch an organization's repositories"@,
            Error::PageCountConsistencyViolation => "a page which wasn't the last one came back short"@,
            Error::ApiFailure => "the API request failed"@,
        }
    }
}

} // verus!
