use vstd::prelude::*;
use crate::user::{User, UserPermission, UserRole};

verus! {

/// A set of permissions, one flag per permission.
#[derive(Clone, Copy, Debug, PartialEq, Eq)]
pub struct PermissionSet {
    delete_user: bool,
    mark_as_naughty: bool,
    pro_demote_user: bool,
    edit_user_permissions: bool,
    read: bool,
}

impl PermissionSet {
    pub closed spec fn has(&self, p: UserPermission) -> bool {
        match p {
            UserPermission::DeleteUser => self.delete_user,
            UserPermission::MarkAsNaughty => self.mark_as_naughty,
            UserPermission::ProDemoteUser => self.pro_demote_user,
            UserPermission::EditUserPermissions => self.edit_user_permissions,
            UserPermission::Read => self.read,
        }
    }
}

impl View for PermissionSet {
    type V = Set<UserPermission>;

    open spec fn view(&self) -> Set<UserPermission> {
        Set::new(|p: UserPermission| self.has(p))
    }
}

/// Every permission, in a fixed order.
pub open spec fn all_permissions() -> Seq<UserPermission> {
    seq![
        UserPermission::DeleteUser,
        UserPermission::MarkAsNaughty,
        UserPermission::ProDemoteUser,
        UserPermission::EditUserPermissions,
        UserPermission::Read,
    ]
}

impl PermissionSet {
    /// The empty set.
    pub fn new() -> (r: PermissionSet)
        ensures
            r@ == Set::<UserPermission>::empty(),
    {
        let r = PermissionSet {
            delete_user: false,
            mark_as_naughty: false,
            pro_demote_user: false,
            edit_user_permissions: false,
            read: false,
        };
        assert(r@ =~= Set::<UserPermission>::empty());
        r
    }

    /// Membership.
    pub fn contains(&self, p: UserPermission) -> (r: bool)
        ensures
            r == self@.contains(p),
    {
        match p {
            UserPermission::DeleteUser => self.delete_user,
            UserPermission::MarkAsNaughty => self.mark_as_naughty,
            UserPermission::ProDemoteUser => self.pro_demote_user,
            UserPermission::EditUserPermissions => self.edit_user_permissions,
            UserPermission::Read => self.read,
        }
    }

    /// Adds one permission.
    pub fn insert(&mut self, p: UserPermission)
        ensures
            final(self)@ == old(self)@.insert(p),
    {
        match p {
            UserPermission::DeleteUser => self.delete_user = true,
            UserPermission::MarkAsNaughty => self.mark_as_naughty = true,
            UserPermission::ProDemoteUser => self.pro_demote_user = true,
            UserPermission::EditUserPermissions => self.edit_user_permissions = true,
            UserPermission::Read => self.read = true,
        }
        assert(final(self)@ =~= old(self)@.insert(p));
    }

    /// Whether no permission is in the set.
    pub fn is_empty(&self) -> (r: bool)
        ensures
            r == (self@ == Set::<UserPermission>::empty()),
    {
        let r = !(self.delete_user || self.mark_as_naughty || self.pro_demote_user
            || self.edit_user_permissions || self.read);
        if !r {
            if self.delete_user {
                assert(self@.contains(UserPermission::DeleteUser));
            } else if self.mark_as_naughty {
                assert(self@.contains(UserPermission::MarkAsNaughty));
            } else if self.pro_demote_user {
                assert(self@.contains(UserPermission::ProDemoteUser));
            } else if self.edit_user_permissions {
                assert(self@.contains(UserPermission::EditUserPermissions));
            } else {
                assert(self@.contains(UserPermission::Read));
            }
        } else {
            assert(self@ =~= Set::<UserPermission>::empty());
        }
        r
    }

    /// The members, each once, in the order of `all_permissions`.
    pub fn to_vec(&self) -> (r: Vec<UserPermission>)
        ensures
            r@.no_duplicates(),
            forall|p: UserPermission| r@.contains(p) <==> self@.contains(p),
            forall|a: int, b: int|
                0 <= a < b < r@.len() ==> permission_index(#[trigger] r@[a]) < permission_index(
                    #[trigger] r@[b],
                ),
    {
        let all = [
            UserPermission::DeleteUser,
            UserPermission::MarkAsNaughty,
            UserPermission::ProDemoteUser,
            UserPermission::EditUserPermissions,
            UserPermission::Read,
        ];
        let mut out: Vec<UserPermission> = Vec::new();
        let mut i: usize = 0;
        while i < 5
            invariant
                i <= 5,
                all@ == all_permissions(),
                out@.no_duplicates(),
                forall|p: UserPermission|
                    #[trigger] out@.contains(p) <==> (self.has(p) && permission_index(p) < i),
                forall|a: int, b: int|
                    0 <= a < b < out@.len() ==> permission_index(#[trigger] out@[a])
                        < permission_index(#[trigger] out@[b]),
                forall|a: int| 0 <= a < out@.len() ==> permission_index(#[trigger] out@[a]) < i,
            decreases 5 - i,
        {
            let p = all[i];
            assert(permission_index(p) == i);
            let ghost prev = out@;
            if self.contains(p) {
                assert(!out@.contains(p));
                out.push(p);
                assert forall|a: int| 0 <= a < out@.len() - 1 implies out@[a] == prev[a] by {}
            }
            assert forall|q: UserPermission|
                #[trigger] out@.contains(q) <==> (self.has(q) && permission_index(q) < i + 1) by {
                if q != p {
                    assert(permission_index(q) != i);
                    if out@.contains(q) {
                        let k = choose|k: int| 0 <= k < out@.len() && out@[k] == q;
                        assert(prev[k] == q);
                        assert(prev.contains(q));
                    }
                    if prev.contains(q) {
                        let k = choose|k: int| 0 <= k < prev.len() && prev[k] == q;
                        assert(out@[k] == q);
                    }
                } else if self.has(q) {
                    assert(out@[out@.len() - 1] == q);
                }
            }
            i = i + 1;
        }
        out
    }
}

/// Position of each permission in `all_permissions`.
pub open spec fn permission_index(p: UserPermission) -> int {
    match p {
        UserPermission::DeleteUser => 0,
        UserPermission::MarkAsNaughty => 1,
        UserPermission::ProDemoteUser => 2,
        UserPermission::EditUserPermissions => 3,
        UserPermission::Read => 4,
    }
}

/// The catalog that a list of stored (role, permission) rows describes:
/// each role maps to the permissions that some row grants it, and a role
/// without rows to the empty set.
pub open spec fn catalog_of(rows: Seq<(UserRole, UserPermission)>) -> Map<
    UserRole,
    Set<UserPermission>,
> {
    Map::new(
        |r: UserRole| true,
        |r: UserRole| Set::new(|p: UserPermission| rows.contains((r, p))),
    )
}

/// The permissions that each role grants, loaded once at start-up and read
/// only afterwards.
#[derive(Clone, Copy, Debug, PartialEq, Eq)]
pub struct PermissionCatalog {
    admin: PermissionSet,
    staff: PermissionSet,
    user: PermissionSet,
    guest: PermissionSet,
    naughty: PermissionSet,
}

impl PermissionCatalog {
    pub closed spec fn set_of(&self, role: UserRole) -> PermissionSet {
        match role {
            UserRole::Admin => self.admin,
            UserRole::Staff => self.staff,
            UserRole::User => self.user,
            UserRole::Guest => self.guest,
            UserRole::Naughty => self.naughty,
        }
    }
}

impl View for PermissionCatalog {
    type V = Map<UserRole, Set<UserPermission>>;

    open spec fn view(&self) -> Map<UserRole, Set<UserPermission>> {
        Map::new(|r: UserRole| true, |r: UserRole| self.set_of(r)@)
    }
}

impl PermissionCatalog {
    /// A catalog in which no role grants anything.
    pub fn new() -> (r: PermissionCatalog)
        ensures
            forall|role: UserRole| #[trigger] r@[role] == Set::<UserPermission>::empty(),
    {
        PermissionCatalog {
            admin: PermissionSet::new(),
            staff: PermissionSet::new(),
            user: PermissionSet::new(),
            guest: PermissionSet::new(),
            naughty: PermissionSet::new(),
        }
    }

    /// Grants `perm` to `role`.
    pub fn grant(&mut self, role: UserRole, perm: UserPermission)
        ensures
            final(self)@ == old(self)@.insert(role, old(self)@[role].insert(perm)),
    {
        match role {
            UserRole::Admin => self.admin.insert(perm),
            UserRole::Staff => self.staff.insert(perm),
            UserRole::User => self.user.insert(perm),
            UserRole::Guest => self.guest.insert(perm),
            UserRole::Naughty => self.naughty.insert(perm),
        }
        assert(final(self)@ =~= old(self)@.insert(role, old(self)@[role].insert(perm)));
    }

    /// Groups stored (role, permission) rows by role.
    pub fn from_rows(rows: &Vec<(UserRole, UserPermission)>) -> (r: PermissionCatalog)
        ensures
            r@ == catalog_of(rows@),
    {
        let mut cat = PermissionCatalog::new();
        let mut i: usize = 0;
        while i < rows.len()
            invariant
                i <= rows@.len(),
                forall|role: UserRole|
                    #[trigger] cat@[role] == Set::new(
                        |p: UserPermission| rows@.subrange(0, i as int).contains((role, p)),
                    ),
            decreases rows@.len() - i,
        {
            let (role, perm) = rows[i];
            let ghost prev = cat@;
            cat.grant(role, perm);
            assert forall|r2: UserRole|
                #[trigger] cat@[r2] == Set::new(
                    |p: UserPermission| rows@.subrange(0, i + 1).contains((r2, p)),
                ) by {
                assert(rows@.subrange(0, i + 1) == rows@.subrange(0, i as int).push((role, perm)));
                assert forall|p: UserPermission|
                    rows@.subrange(0, i + 1).contains((r2, p)) <==> (rows@.subrange(
                        0,
                        i as int,
                    ).contains((r2, p)) || (r2, p) == (role, perm)) by {
                    let s = rows@.subrange(0, i as int);
                    if s.push((role, perm)).contains((r2, p)) && (r2, p) != (role, perm) {
                        let k = choose|k: int| 0 <= k < s.len() + 1 && s.push((role, perm))[k] == (r2, p);
                        assert(s[k] == (r2, p));
                    }
                    if s.contains((r2, p)) {
                        let k = choose|k: int| 0 <= k < s.len() && s[k] == (r2, p);
                        assert(s.push((role, perm))[k] == (r2, p));
                    }
                    if (r2, p) == (role, perm) {
                        assert(s.push((role, perm))[s.len() as int] == (r2, p));
                    }
                }
                assert(cat@[r2] =~= Set::new(
                    |p: UserPermission| rows@.subrange(0, i + 1).contains((r2, p)),
                ));
            }
            i = i + 1;
        }
        assert(rows@.subrange(0, rows@.len() as int) == rows@);
        assert(cat@ =~= catalog_of(rows@));
        cat
    }

    /// The permissions that `role` grants; empty for a role without grants.
    pub fn permissions_for(&self, role: UserRole) -> (r: PermissionSet)
        ensures
            r@ == self@[role],
    {
        match role {
            UserRole::Admin => self.admin,
            UserRole::Staff => self.staff,
            UserRole::User => self.user,
            UserRole::Guest => self.guest,
            UserRole::Naughty => self.naughty,
        }
    }

    /// Whether `role` grants `perm`.
    pub fn has(&self, role: UserRole, perm: UserPermission) -> (r: bool)
        ensures
            r == self@[role].contains(perm),
    {
        self.permissions_for(role).contains(perm)
    }

    /// Permissions granted to the user in person: there are none, grants
    /// go by role only.
    pub fn get_user_permissions(&self, user: &User) -> (r: PermissionSet)
        ensures
            r@ == Set::<UserPermission>::empty(),
    {
        PermissionSet::new()
    }

    /// Permissions that the user's role grants.
    pub fn get_group_permissions(&self, user: &User) -> (r: PermissionSet)
        ensures
            r@ == self@[user.role],
    {
        self.permissions_for(user.role)
    }

    /// Every permission the user holds, in person or by role.
    pub fn get_all_permissions(&self, user: &User) -> (r: PermissionSet)
        ensures
            r@ == self@[user.role],
    {
        self.permissions_for(user.role)
    }

    /// Whether the user holds `perm`.
    pub fn has_perm(&self, user: &User, perm: UserPermission) -> (r: bool)
        ensures
            r == self@[user.role].contains(perm),
    {
        self.has(user.role, perm)
    }
}

/// `has(role, perm)` holds exactly when `perm` is among
/// `permissions_for(role)`, and a role that no stored row mentions grants
/// nothing.
pub proof fn lemma_permission_resolution(
    rows: Seq<(UserRole, UserPermission)>,
    role: UserRole,
    perm: UserPermission,
)
    ensures
        catalog_of(rows)[role].contains(perm) <==> rows.contains((role, perm)),
        (forall|p: UserPermission| !rows.contains((role, p))) ==> catalog_of(rows)[role]
            == Set::<UserPermission>::empty(),
{
    if forall|p: UserPermission| !rows.contains((role, p)) {
        assert(catalog_of(rows)[role] =~= Set::<UserPermission>::empty());
    }
}

} // verus!
