//! The admission of a user to the default organization.

use crate::automation::UserRole;
use crate::oidc::config::EffectiveConfig;
use crate::oidc::token::Identity;
use crate::text;
use vstd::prelude::*;
use vstd::string::*;

verus! {

/// How many random characters a token of a new member has.
pub const MEMBER_TOKEN_LENGTH: usize = 16;

/// An organization that a user is in, and the role that the user has there. The role of every
/// service account is [`UserRole::ServiceAccount`].
#[derive(Clone, Debug)]
pub struct Membership {
    pub name: String,
    pub role: UserRole,
}

/// A user that is there already. `is_external` says that the account has no login of its own.
#[derive(Clone, Debug)]
pub struct ExistingUser {
    pub is_external: bool,
    pub organizations: Vec<Membership>,
}

/// A user that joins an organization.
#[derive(Clone, Debug)]
pub struct NewMember {
    pub org: String,
    pub email: String,
    pub role: UserRole,
    pub token: String,
    pub rum_token: Option<String>,
}

/// A member of an organization that gets another role there.
#[derive(Clone, Debug)]
pub struct RoleChange {
    pub org: String,
    pub email: String,
    pub role: UserRole,
}

/// An organization of a new user.
#[derive(Clone, Debug)]
pub struct UserOrg {
    pub name: String,
    pub org_name: String,
    pub token: String,
    pub rum_token: Option<String>,
    pub role: UserRole,
}

/// A new user.
#[derive(Clone, Debug)]
pub struct NewUser {
    pub email: String,
    pub first_name: String,
    pub last_name: String,
    pub password: String,
    pub salt: String,
    pub organizations: Vec<UserOrg>,
    pub is_external: bool,
    pub password_ext: Option<String>,
}

/// Why a user is not admitted.
#[derive(Clone, Copy, Debug, PartialEq, Eq, Structural)]
pub enum ProvisionError {
    NativeAccount,
    ServiceAccount,
}

/// What is left to do for a user that is admitted.
#[derive(Debug)]
pub enum Admission {
    /// Nothing: the user is an administrator of the default organization.
    Member,
    /// The user is in the default organization and becomes an administrator there.
    Promote(RoleChange),
    /// The user joins the default organization.
    Join(NewMember),
    /// The user is created.
    Create(NewUser),
}

/// The user has a service account in some organization.
pub open spec fn has_service_account(user: ExistingUser) -> bool {
    exists|i: int|
        0 <= i < user.organizations@.len() && (
        #[trigger] user.organizations@[i]).role is ServiceAccount
}

/// The user is in the organization.
pub open spec fn is_member(user: ExistingUser, org: Seq<char>) -> bool {
    exists|i: int|
        0 <= i < user.organizations@.len() && (#[trigger] user.organizations@[i]).name@ == org
}

/// The user is an administrator of the organization.
pub open spec fn is_admin(user: ExistingUser, org: Seq<char>) -> bool {
    exists|i: int|
        0 <= i < user.organizations@.len() && (#[trigger] user.organizations@[i]).name@ == org
            && user.organizations@[i].role is Admin
}

/// Why a user is not admitted: the account has a login of its own, or is a service account.
pub open spec fn provision_fault(existing: Option<ExistingUser>) -> Option<ProvisionError> {
    match existing {
        None => None,
        Some(user) => if !user.is_external {
            Some(ProvisionError::NativeAccount)
        } else if has_service_account(user) {
            Some(ProvisionError::ServiceAccount)
        } else {
            None
        },
    }
}

/// The identity joins the default organization as an administrator.
pub open spec fn joins(
    member: NewMember,
    cfg: EffectiveConfig,
    identity: Identity,
    token: Seq<char>,
    rum_token: Seq<char>,
) -> bool {
    &&& member.org@ == cfg.default_org@
    &&& member.email@ == identity.email@
    &&& member.role == UserRole::Admin
    &&& member.token@ == token
    &&& text::text_view(member.rum_token) == Some("rum"@ + rum_token)
}

/// The identity becomes an administrator of the default organization.
pub open spec fn promotes(change: RoleChange, cfg: EffectiveConfig, identity: Identity) -> bool {
    &&& change.org@ == cfg.default_org@
    &&& change.email@ == identity.email@
    &&& change.role == UserRole::Admin
}

/// The user is new, has no login of its own, and is an administrator of the default organization
/// alone. The whole name is the first name where the provider does not part it.
pub open spec fn creates(user: NewUser, cfg: EffectiveConfig, identity: Identity) -> bool {
    let parted = identity.given_name@.len() > 0 || identity.family_name@.len() > 0;
    &&& user.email@ == identity.email@
    &&& user.first_name@ == if parted {
        identity.given_name@
    } else {
        identity.name@
    }
    &&& user.last_name@ == if parted {
        identity.family_name@
    } else {
        Seq::empty()
    }
    &&& user.password@ == Seq::<char>::empty()
    &&& user.salt@ == Seq::<char>::empty()
    &&& user.organizations@.len() == 1
    &&& user.organizations@[0].name@ == cfg.default_org@
    &&& user.organizations@[0].org_name@ == cfg.default_org@
    &&& user.organizations@[0].token@ == Seq::<char>::empty()
    &&& user.organizations@[0].rum_token is None
    &&& user.organizations@[0].role == UserRole::Admin
    &&& user.is_external
    &&& user.password_ext is None
}

/// The admission is what is left to do for the identity.
pub open spec fn admits(
    admission: Admission,
    cfg: EffectiveConfig,
    identity: Identity,
    existing: Option<ExistingUser>,
    token: Seq<char>,
    rum_token: Seq<char>,
) -> bool {
    match existing {
        None => admission matches Admission::Create(user) && creates(user, cfg, identity),
        Some(user) => if is_admin(user, cfg.default_org@) {
            admission is Member
        } else if is_member(user, cfg.default_org@) {
            admission matches Admission::Promote(change) && promotes(change, cfg, identity)
        } else {
            admission matches Admission::Join(member) && joins(
                member,
                cfg,
                identity,
                token,
                rum_token,
            )
        },
    }
}

/// Once the admission is carried out, the identity is an administrator of the default organization:
/// as one that was so already, by a change of role, by joining, or by being created so.
pub open spec fn ends_as_admin(
    admission: Admission,
    cfg: EffectiveConfig,
    identity: Identity,
    existing: Option<ExistingUser>,
) -> bool {
    match admission {
        Admission::Member => existing matches Some(user) && is_admin(user, cfg.default_org@),
        Admission::Promote(change) => change.org@ == cfg.default_org@ && change.email@
            == identity.email@ && change.role == UserRole::Admin,
        Admission::Join(member) => member.org@ == cfg.default_org@ && member.email@
            == identity.email@ && member.role == UserRole::Admin,
        Admission::Create(user) => user.email@ == identity.email@ && user.organizations@.len() == 1
            && user.organizations@[0].name@ == cfg.default_org@ && user.organizations@[0].role
            == UserRole::Admin,
    }
}

fn any_service_account(user: &ExistingUser) -> (any: bool)
    ensures
        any == has_service_account(*user),
{
    let mut i: usize = 0;
    while i < user.organizations.len()
        invariant
            i <= user.organizations.len(),
            forall|j: int|
                0 <= j < i ==> !((#[trigger] user.organizations@[j]).role is ServiceAccount),
        decreases user.organizations.len() - i,
    {
        if user.organizations[i].role.is_service_account() {
            assert(user.organizations@[i as int].role is ServiceAccount);
            return true;
        }
        i = i + 1;
    }
    false
}

fn is_in_org(user: &ExistingUser, org: &str) -> (is: bool)
    ensures
        is == is_member(*user, org@),
{
    let mut i: usize = 0;
    while i < user.organizations.len()
        invariant
            i <= user.organizations.len(),
            forall|j: int| 0 <= j < i ==> (#[trigger] user.organizations@[j]).name@ != org@,
        decreases user.organizations.len() - i,
    {
        if text::same_text(user.organizations[i].name.as_str(), org) {
            assert(user.organizations@[i as int].name@ == org@);
            return true;
        }
        i = i + 1;
    }
    false
}

fn is_admin_of(user: &ExistingUser, org: &str) -> (is: bool)
    ensures
        is == is_admin(*user, org@),
{
    let mut i: usize = 0;
    while i < user.organizations.len()
        invariant
            i <= user.organizations.len(),
            forall|j: int|
                0 <= j < i ==> !((#[trigger] user.organizations@[j]).name@ == org@
                    && user.organizations@[j].role is Admin),
        decreases user.organizations.len() - i,
    {
        if user.organizations[i].role.is_admin() && text::same_text(
            user.organizations[i].name.as_str(),
            org,
        ) {
            assert(user.organizations@[i as int].name@ == org@);
            return true;
        }
        i = i + 1;
    }
    false
}

fn new_user(cfg: &EffectiveConfig, identity: &Identity) -> (user: NewUser)
    ensures
        creates(user, *cfg, *identity),
{
    let (first_name, last_name): (String, String) = if identity.given_name.as_str().unicode_len()
        == 0 && identity.family_name.as_str().unicode_len() == 0 {
        (identity.name.clone(), String::new())
    } else {
        (identity.given_name.clone(), identity.family_name.clone())
    };
    let mut organizations: Vec<UserOrg> = Vec::new();
    organizations.push(
        UserOrg {
            name: cfg.default_org.clone(),
            org_name: cfg.default_org.clone(),
            token: String::new(),
            rum_token: None,
            role: UserRole::Admin,
        },
    );
    NewUser {
        email: identity.email.clone(),
        first_name,
        last_name,
        password: String::new(),
        salt: String::new(),
        organizations,
        is_external: true,
        password_ext: None,
    }
}

/// What is left to do to admit an identity. `existing` is the user with its email address, where
/// there is one; `token` and `rum_token` are random texts of [`MEMBER_TOKEN_LENGTH`] characters.
///
/// Whoever is admitted is an administrator of the default organization in the end.
pub fn provision_user(
    cfg: &EffectiveConfig,
    identity: &Identity,
    existing: &Option<ExistingUser>,
    token: &str,
    rum_token: &str,
) -> (result: Result<Admission, ProvisionError>)
    ensures
        match provision_fault(*existing) {
            Some(fault) => result == Err::<Admission, ProvisionError>(fault),
            None => result matches Ok(admission) && admits(
                admission,
                *cfg,
                *identity,
                *existing,
                token@,
                rum_token@,
            ),
        },
        result matches Ok(admission) ==> ends_as_admin(admission, *cfg, *identity, *existing),
{
    match existing {
        None => Ok(Admission::Create(new_user(cfg, identity))),
        Some(user) => {
            if !user.is_external {
                return Err(ProvisionError::NativeAccount);
            }
            if any_service_account(user) {
                return Err(ProvisionError::ServiceAccount);
            }
            if is_admin_of(user, cfg.default_org.as_str()) {
                Ok(Admission::Member)
            } else if is_in_org(user, cfg.default_org.as_str()) {
                Ok(
                    Admission::Promote(
                        RoleChange {
                            org: cfg.default_org.clone(),
                            email: identity.email.clone(),
                            role: UserRole::Admin,
                        },
                    ),
                )
            } else {
                Ok(
                    Admission::Join(
                        NewMember {
                            org: cfg.default_org.clone(),
                            email: identity.email.clone(),
                            role: UserRole::Admin,
                            token: token.to_owned(),
                            rum_token: Some(text::joined("rum", rum_token)),
                        },
                    ),
                )
            }
        },
    }
}

impl ProvisionError {
    /// What is wrong, in words.
    pub fn message(self) -> (message: &'static str)
        ensures
            message@ == match self {
                ProvisionError::NativeAccount => "OIDC cannot link an existing native-login account"@,
                ProvisionError::ServiceAccount => "service accounts cannot use OIDC login"@,
            },
    {
        match self {
            ProvisionError::NativeAccount => "OIDC cannot link an existing native-login account",
            ProvisionError::ServiceAccount => "service accounts cannot use OIDC login",
        }
    }
}

// ---------------------------------------------------------------------------------------------
// Laws
// ---------------------------------------------------------------------------------------------

/// An account is never taken over: whoever is there already is admitted only where the account has
/// no login of its own and is no service account anywhere.
pub proof fn accounts_are_never_taken_over(user: ExistingUser)
    requires
        provision_fault(Some(user)) is None,
    ensures
        user.is_external,
        forall|i: int|
            0 <= i < user.organizations@.len()
                ==> !((#[trigger] user.organizations@[i]).role is ServiceAccount),
{
}

/// Whoever is admitted is an administrator of the default organization in the end: as one that was
/// so already, as a member that becomes so, or as one that joins it or is created in it so. No
/// other organization is touched.
pub proof fn the_admitted_administer_the_default_organization(
    admission: Admission,
    cfg: EffectiveConfig,
    identity: Identity,
    existing: Option<ExistingUser>,
    token: Seq<char>,
    rum_token: Seq<char>,
)
    requires
        admits(admission, cfg, identity, existing, token, rum_token),
    ensures
        ends_as_admin(admission, cfg, identity, existing),
{
}

/// A user that is new, or that has an account without a login of its own and is no service account
/// in any organization, is admitted. Any other is refused, and why is said: first for a login of
/// its own, and then for a service account, in whichever organization that is.
pub proof fn external_accounts_are_admitted(user: ExistingUser, i: int)
    ensures
        provision_fault(None) is None,
        user.is_external && (forall|k: int|
            0 <= k < user.organizations@.len() ==> (#[trigger] user.organizations@[k]).role
                != UserRole::ServiceAccount) ==> provision_fault(Some(user)) is None,
        !user.is_external ==> provision_fault(Some(user)) == Some(ProvisionError::NativeAccount),
        user.is_external && 0 <= i < user.organizations@.len() && user.organizations@[i].role
            == UserRole::ServiceAccount ==> provision_fault(Some(user)) == Some(
            ProvisionError::ServiceAccount,
        ),
{
}

/// What is left to do depends on the default organization alone: nothing for an administrator of
/// it, a change of role for another member, joining for everyone else, wherever the organization
/// stands among those of the user and whatever the user is elsewhere.
pub proof fn admission_goes_by_the_default_organization(
    admission: Admission,
    cfg: EffectiveConfig,
    identity: Identity,
    user: ExistingUser,
    token: Seq<char>,
    rum_token: Seq<char>,
    i: int,
)
    requires
        admits(admission, cfg, identity, Some(user), token, rum_token),
    ensures
        0 <= i < user.organizations@.len() && user.organizations@[i].name@ == cfg.default_org@
            && user.organizations@[i].role == UserRole::Admin ==> admission is Member,
        0 <= i < user.organizations@.len() && user.organizations@[i].name@ == cfg.default_org@
            ==> !(admission is Join) && !(admission is Create),
        (forall|k: int|
            0 <= k < user.organizations@.len() ==> (#[trigger] user.organizations@[k]).name@
                != cfg.default_org@) ==> (admission matches Admission::Join(member) && member.org@
            == cfg.default_org@ && member.email@ == identity.email@ && member.role
            == UserRole::Admin && member.token@ == token && (member.rum_token matches Some(rum)
            && rum@ == "rum"@ + rum_token)),
        (forall|k: int|
            0 <= k < user.organizations@.len() && (#[trigger] user.organizations@[k]).name@
                == cfg.default_org@ ==> user.organizations@[k].role != UserRole::Admin) ==> !(
        admission is Member),
        admission matches Admission::Promote(change) ==> change.org@ == cfg.default_org@
            && change.email@ == identity.email@ && change.role == UserRole::Admin,
{
    if admission is Member {
        let k = choose|k: int|
            0 <= k < user.organizations@.len() && (#[trigger] user.organizations@[k]).name@
                == cfg.default_org@ && user.organizations@[k].role is Admin;
        assert(user.organizations@[k].role == UserRole::Admin);
    }
}

/// A user that is new is created, with the email address and the name that the provider gives: given
/// and family name where it gives either, and else the whole name as the first one. The account has
/// no password and no login of its own.
pub proof fn a_new_user_is_created_under_its_name(
    admission: Admission,
    cfg: EffectiveConfig,
    identity: Identity,
    token: Seq<char>,
    rum_token: Seq<char>,
)
    requires
        admits(admission, cfg, identity, None, token, rum_token),
    ensures
        admission matches Admission::Create(user) && {
            &&& user.email@ == identity.email@
            &&& identity.given_name@.len() > 0 || identity.family_name@.len() > 0
                ==> user.first_name@ == identity.given_name@ && user.last_name@
                == identity.family_name@
            &&& identity.given_name@.len() == 0 && identity.family_name@.len() == 0
                ==> user.first_name@ == identity.name@ && user.last_name@.len() == 0
            &&& user.password@.len() == 0 && user.salt@.len() == 0 && user.password_ext is None
                && user.is_external
            &&& user.organizations@.len() == 1 && user.organizations@[0].name@ == cfg.default_org@
                && user.organizations@[0].org_name@ == cfg.default_org@
                && user.organizations@[0].role == UserRole::Admin
                && user.organizations@[0].token@.len() == 0
                && user.organizations@[0].rum_token is None
        },
{
}

/// The tokens of a new member have 16 random characters, and the one for monitoring has three more
/// before them.
pub proof fn member_tokens_are_long(
    member: NewMember,
    cfg: EffectiveConfig,
    identity: Identity,
    token: Seq<char>,
    rum_token: Seq<char>,
)
    requires
        joins(member, cfg, identity, token, rum_token),
        token.len() == MEMBER_TOKEN_LENGTH,
        rum_token.len() == MEMBER_TOKEN_LENGTH,
    ensures
        member.token@.len() == 16,
        member.rum_token matches Some(rum) && rum@.len() == 19 && rum@.skip(3) == rum_token,
{
    reveal_strlit("rum");
    assert(("rum"@ + rum_token).skip(3) =~= rum_token);
}

} // verus!
