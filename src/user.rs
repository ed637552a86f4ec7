use vstd::prelude::*;
use vstd::string::StrSliceExecFns;

verus! {

/// The role of a user; every user has exactly one.
#[derive(Clone, Copy, Debug, PartialEq, Eq, Hash, Structural)]
pub enum UserRole {
    Admin,
    Staff,
    User,
    Guest,
    Naughty,
}

/// A permission that a role may be granted.
#[derive(Clone, Copy, Debug, PartialEq, Eq, Hash, Structural)]
pub enum UserPermission {
    DeleteUser,
    MarkAsNaughty,
    ProDemoteUser,
    EditUserPermissions,
    Read,
}

/// The stored name of each role.
pub open spec fn role_name(r: UserRole) -> Seq<char> {
    match r {
        UserRole::Admin => "admin"@,
        UserRole::Staff => "staff"@,
        UserRole::User => "user"@,
        UserRole::Guest => "guest"@,
        UserRole::Naughty => "naughty"@,
    }
}

/// The stored name of each permission.
pub open spec fn permission_name(p: UserPermission) -> Seq<char> {
    match p {
        UserPermission::DeleteUser => "deleteuser"@,
        UserPermission::MarkAsNaughty => "markasnaughty"@,
        UserPermission::ProDemoteUser => "prodemoteuser"@,
        UserPermission::EditUserPermissions => "edituserpermissions"@,
        UserPermission::Read => "read"@,
    }
}

/// Character-wise equality of two string slices.
pub fn str_equal(a: &str, b: &str) -> (r: bool)
    ensures
        r == (a@ == b@),
{
    let n = a.unicode_len();
    if n != b.unicode_len() {
        return false;
    }
    let mut i: usize = 0;
    while i < n
        invariant
            n == a@.len(),
            n == b@.len(),
            i <= n,
            a@.subrange(0, i as int) == b@.subrange(0, i as int),
        decreases n - i,
    {
        if a.get_char(i) != b.get_char(i) {
            assert(a@[i as int] != b@[i as int]);
            return false;
        }
        assert(a@.subrange(0, i + 1) == a@.subrange(0, i as int).push(a@[i as int]));
        assert(b@.subrange(0, i + 1) == b@.subrange(0, i as int).push(b@[i as int]));
        i = i + 1;
    }
    assert(a@ == a@.subrange(0, n as int));
    assert(b@ == b@.subrange(0, n as int));
    true
}

impl UserRole {
    /// The name under which the role is stored.
    pub fn as_str(&self) -> (r: &'static str)
        ensures
            r@ == role_name(*self),
    {
        proof {
            reveal_strlit("admin");
            reveal_strlit("staff");
            reveal_strlit("user");
            reveal_strlit("guest");
            reveal_strlit("naughty");
        }
        match self {
            UserRole::Admin => "admin",
            UserRole::Staff => "staff",
            UserRole::User => "user",
            UserRole::Guest => "guest",
            UserRole::Naughty => "naughty",
        }
    }

    /// The role stored under `name`, if any.
    pub fn from_name(name: &str) -> (r: Option<UserRole>)
        ensures
            forall|role: UserRole| r == Some(role) <==> role_name(role) == name@,
    {
        let all = [UserRole::Admin, UserRole::Staff, UserRole::User, UserRole::Guest, UserRole::Naughty];
        let mut i: usize = 0;
        while i < 5
            invariant
                i <= 5,
                all@ == seq![UserRole::Admin, UserRole::Staff, UserRole::User, UserRole::Guest, UserRole::Naughty],
                forall|j: int| 0 <= j < i ==> role_name(#[trigger] all@[j]) != name@,
            decreases 5 - i,
        {
            let role = all[i];
            if str_equal(role.as_str(), name) {
                proof {
                    assert forall|other: UserRole| role_name(other) == name@ implies other == role by {
                        lemma_role_name_round_trip(other, role);
                    }
                }
                return Some(role);
            }
            i = i + 1;
        }
        assert forall|role: UserRole| role_name(role) != name@ by {
            match role {
                UserRole::Admin => assert(all@[0] == role),
                UserRole::Staff => assert(all@[1] == role),
                UserRole::User => assert(all@[2] == role),
                UserRole::Guest => assert(all@[3] == role),
                UserRole::Naughty => assert(all@[4] == role),
            }
        }
        None
    }
}

impl UserPermission {
    /// The name under which the permission is stored.
    pub fn as_str(&self) -> (r: &'static str)
        ensures
            r@ == permission_name(*self),
    {
        proof {
            reveal_strlit("deleteuser");
            reveal_strlit("markasnaughty");
            reveal_strlit("prodemoteuser");
            reveal_strlit("edituserpermissions");
            reveal_strlit("read");
        }
        match self {
            UserPermission::DeleteUser => "deleteuser",
            UserPermission::MarkAsNaughty => "markasnaughty",
            UserPermission::ProDemoteUser => "prodemoteuser",
            UserPermission::EditUserPermissions => "edituserpermissions",
            UserPermission::Read => "read",
        }
    }

    /// The permission stored under `name`, if any.
    pub fn from_name(name: &str) -> (r: Option<UserPermission>)
        ensures
            forall|p: UserPermission| r == Some(p) <==> permission_name(p) == name@,
    {
        let all = [
            UserPermission::DeleteUser,
            UserPermission::MarkAsNaughty,
            UserPermission::ProDemoteUser,
            UserPermission::EditUserPermissions,
            UserPermission::Read,
        ];
        let mut i: usize = 0;
        while i < 5
            invariant
                i <= 5,
                all@ == seq![
                    UserPermission::DeleteUser,
                    UserPermission::MarkAsNaughty,
                    UserPermission::ProDemoteUser,
                    UserPermission::EditUserPermissions,
                    UserPermission::Read,
                ],
                forall|j: int| 0 <= j < i ==> permission_name(#[trigger] all@[j]) != name@,
            decreases 5 - i,
        {
            let p = all[i];
            if str_equal(p.as_str(), name) {
                proof {
                    assert forall|other: UserPermission| permission_name(other) == name@ implies other
                        == p by {
                        lemma_permission_name_round_trip(other, p);
                    }
                }
                return Some(p);
            }
            i = i + 1;
        }
        assert forall|p: UserPermission| permission_name(p) != name@ by {
            match p {
                UserPermission::DeleteUser => assert(all@[0] == p),
                UserPermission::MarkAsNaughty => assert(all@[1] == p),
                UserPermission::ProDemoteUser => assert(all@[2] == p),
                UserPermission::EditUserPermissions => assert(all@[3] == p),
                UserPermission::Read => assert(all@[4] == p),
            }
        }
        None
    }
}

/// Distinct roles are stored under distinct names, and reading a role's
/// stored name gives the role back.
pub proof fn lemma_role_name_round_trip(a: UserRole, b: UserRole)
    ensures
        role_name(a) == role_name(b) <==> a == b,
{
    reveal_strlit("admin");
    reveal_strlit("staff");
    reveal_strlit("user");
    reveal_strlit("guest");
    reveal_strlit("naughty");
    if a != b {
        assert(role_name(a)[0] != role_name(b)[0]);
    }
}

/// Distinct permissions are stored under distinct names, and reading a
/// permission's stored name gives the permission back.
pub proof fn lemma_permission_name_round_trip(a: UserPermission, b: UserPermission)
    ensures
        permission_name(a) == permission_name(b) <==> a == b,
{
    reveal_strlit("deleteuser");
    reveal_strlit("markasnaughty");
    reveal_strlit("prodemoteuser");
    reveal_strlit("edituserpermissions");
    reveal_strlit("read");
    if a != b {
        assert(permission_name(a)[0] != permission_name(b)[0]);
    }
}

/// A user's identity, as handed out to callers; it never holds the password
/// hash.
#[derive(Debug, PartialEq, Eq)]
pub struct User {
    /// Unique, immutable identifier.
    pub id: i64,
    /// Unique email address.
    pub email: String,
    /// Creation time, in seconds since the Unix epoch.
    pub c_at: i64,
    /// Time of the last update, in seconds since the Unix epoch.
    pub u_at: i64,
    pub role: UserRole,
    /// Per-user session-authentication secret: rotating it invalidates every
    /// session bound to the user.
    pub skey: [u8; 16],
}

impl Clone for User {
    fn clone(&self) -> (r: Self)
        ensures
            r == *self,
    {
        User {
            id: self.id,
            email: self.email.clone(),
            c_at: self.c_at,
            u_at: self.u_at,
            role: self.role,
            skey: self.skey,
        }
    }
}

impl User {
    /// The identifier that a session binds.
    pub fn id(&self) -> (r: i64)
        ensures
            r == self.id,
    {
        self.id
    }

    /// The bytes a session records at login and compares on every request.
    pub fn session_auth_hash(&self) -> (r: &[u8])
        ensures
            r@ == self.skey@,
    {
        self.skey.as_slice()
    }
}

/// A login attempt: email, plain-text password, and where to go afterwards.
pub struct Credentials {
    pub email: String,
    pub password: String,
    pub next: Option<String>,
}

/// A request to replace the password of the logged-in user.
pub struct ChangePassword {
    pub old_password: String,
    pub new_password: String,
}

/// A registration request.
pub struct RegisterPayload {
    pub email: String,
    pub password: String,
}

/// A query whether an email address is still free.
pub struct CheckEmail {
    pub email: String,
}

} // verus!
