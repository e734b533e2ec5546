use vstd::prelude::*;
use crate::api::User;
use crate::error::Error;

verus! {

/// The external account-resolution capability: one account record, or the
/// list of organizations an account belongs to. The surrounding program
/// implements it over the HTTP transport; tests implement it with canned
/// data.
pub trait OwnerApi {
    /// Resolves a login to its account record.
    fn resolve_owner(&mut self, login: &str) -> Result<User, Error>;

    /// Lists the logins of the organizations `login` belongs to.
    fn list_organizations(&mut self, login: &str) -> Result<Vec<String>, Error>;
}

/// The owners one aggregation run covers: the root user, and the
/// organizations that could be resolved, in discovery order.
pub struct ResolvedOwners {
    pub user: User,
    pub orgs: Vec<User>,
}

/// The successfully resolved organization records, in order; a failed
/// resolution is dropped.
pub open spec fn spec_resolved_orgs(org_users: Seq<Result<User, Error>>) -> Seq<User>
    decreases org_users.len(),
{
    if org_users.len() == 0 {
        Seq::empty()
    } else {
        match org_users.first() {
            Ok(user) => seq![user] + spec_resolved_orgs(org_users.drop_first()),
            Err(_) => spec_resolved_orgs(org_users.drop_first()),
        }
    }
}

/// Combines the resolution results of one run into the owner set, under the
/// run's failure policy: a failed primary resolution is fatal; a failed
/// organization listing means zero organizations; a failed resolution of
/// one organization drops that organization alone. With `include_orgs`
/// unset the organization list is empty whatever was passed.
pub fn resolve_owners(
    primary: Result<User, Error>,
    org_logins: Result<Vec<String>, Error>,
    org_users: Vec<Result<User, Error>>,
    include_orgs: bool,
) -> (r: Result<ResolvedOwners, Error>)
    ensures
        primary is Err ==> r == Err::<ResolvedOwners, Error>(Error::PrimaryResolutionFailure),
        primary matches Ok(user) ==> r matches Ok(resolved) && {
            &&& resolved.user == user
            &&& (include_orgs && org_logins is Ok ==> resolved.orgs@ == spec_resolved_orgs(
                org_users@,
            ))
            &&& (!(include_orgs && org_logins is Ok) ==> resolved.orgs@.len() == 0)
        },
{
    let user = match primary {
        Ok(user) => user,
        Err(_) => {
            return Err(Error::PrimaryResolutionFailure);
        },
    };
    let mut orgs: Vec<User> = Vec::new();
    if include_orgs && org_logins.is_ok() {
        let ghost all = org_users@;
        let mut rest = org_users;
        while rest.len() > 0
            invariant
                orgs@ + spec_resolved_orgs(rest@) == spec_resolved_orgs(all),
            decreases rest@.len(),
        {
            let ghost prev = rest@;
            let next = rest.remove(0);
            proof {
                assert(prev.drop_first() =~= rest@);
            }
            match next {
                Ok(org_user) => {
                    orgs.push(org_user);
                    proof {
                        assert(orgs@ + spec_resolved_orgs(rest@) =~= spec_resolved_orgs(all));
                    }
                },
                Err(_) => (),
            }
        }
        proof {
            assert(orgs@ =~= spec_resolved_orgs(all));
        }
    }
    Ok(ResolvedOwners { user, orgs })
}

/// If resolution failed for one organization among many, the resolved owner
/// set is exactly the one of the other organizations, in order: the failure
/// is dropped, not propagated.
pub proof fn lemma_failed_org_resolution_dropped(org_users: Seq<Result<User, Error>>, i: int)
    requires
        0 <= i < org_users.len(),
        org_users[i] is Err,
    ensures
        spec_resolved_orgs(org_users) == spec_resolved_orgs(org_users.remove(i)),
    decreases org_users.len(),
{
    if i == 0 {
        assert(org_users.remove(0) =~= org_users.drop_first());
    } else {
        lemma_failed_org_resolution_dropped(org_users.drop_first(), i - 1);
        assert(org_users.remove(i).drop_first() =~= org_users.drop_first().remove(i - 1));
        assert(org_users.remove(i).first() == org_users.first());
    }
}

} // verus!
