//! Accounts, the claims of their tokens, and role-based permissions.
use vstd::prelude::*;
use crate::text::{lemma_char_vec_deep_view, str_eq, chars_of, string_of, insert_sorted_unique, strictly_sorted, string_views,
    clone_strings, is_prefix};
use crate::format::append_chars;
use crate::requests::LoginRequest;
use crate::validation::{ValidationErrors, field_names};
use crate::ambient::{in_chrono_range, now_secs, new_uuid, uuid_text, uuid_of, parse_uuid, uuid_hyphenated};

verus! {

/// A role and the permissions it grants.
pub open spec fn entry_view(e: (String, Vec<String>)) -> (Seq<char>, Seq<Seq<char>>) {
    (e.0@, string_views(e.1@))
}

/// The permissions of the first entry for `role` in `table`, if any.
pub open spec fn role_perms(table: Seq<(Seq<char>, Seq<Seq<char>>)>, role: Seq<char>) -> Option<Seq<Seq<char>>>
    decreases table.len(),
{
    if table.len() == 0 {
        None
    } else if table[0].0 == role {
        Some(table[0].1)
    } else {
        role_perms(table.drop_first(), role)
    }
}

/// Whether `role` is listed in `table` with permission `p`.
pub open spec fn grants(table: Seq<(Seq<char>, Seq<Seq<char>>)>, role: Seq<char>, p: Seq<char>) -> bool {
    match role_perms(table, role) {
        Some(ps) => ps.contains(p),
        None => false,
    }
}

/// Whether one of `roles` grants `p` or the wildcard `*`.
pub open spec fn has_permission(
    table: Seq<(Seq<char>, Seq<Seq<char>>)>,
    roles: Seq<Seq<char>>,
    p: Seq<char>,
) -> bool {
    exists|i: int| 0 <= i < roles.len() && (grants(table, #[trigger] roles[i], p) || grants(table, roles[i], "*"@))
}

/// The permissions granted by some of `roles`.
pub open spec fn granted(table: Seq<(Seq<char>, Seq<Seq<char>>)>, roles: Seq<Seq<char>>) -> Set<Seq<char>> {
    Set::new(|p: Seq<char>| exists|i: int| 0 <= i < roles.len() && #[trigger] grants(table, roles[i], p))
}

/// The built-in roles: `admin` may read, write and delete everything and manage
/// users and the system; `user` may read and write its own data; `viewer` may read
/// public data.
pub open spec fn builtin_roles() -> Seq<(Seq<char>, Seq<Seq<char>>)> {
    seq![
        ("admin"@, seq!["read:all"@, "write:all"@, "delete:all"@, "manage:users"@, "manage:system"@]),
        ("user"@, seq!["read:own"@, "write:own"@]),
        ("viewer"@, seq!["read:public"@]),
    ]
}

/// Answers which permissions users hold through their roles.
#[derive(Debug)]
pub struct PermissionService {
    role_permissions: Vec<(String, Vec<String>)>,
}

fn role_entry(role: &str, perms: Vec<String>) -> (e: (String, Vec<String>))
    ensures
        entry_view(e) == (role@, string_views(perms@)),
{
    (role.to_string(), perms)
}

impl PermissionService {
    /// The roles and what they grant, in order.
    pub closed spec fn table(&self) -> Seq<(Seq<char>, Seq<Seq<char>>)> {
        self.role_permissions@.map_values(|e: (String, Vec<String>)| entry_view(e))
    }

    /// The service with the built-in roles.
    pub fn new() -> (s: Self)
        ensures
            s.table() == builtin_roles(),
    {
        let admin = vec![
            "read:all".to_string(),
            "write:all".to_string(),
            "delete:all".to_string(),
            "manage:users".to_string(),
            "manage:system".to_string(),
        ];
        let user = vec!["read:own".to_string(), "write:own".to_string()];
        let viewer = vec!["read:public".to_string()];
        let e0 = role_entry("admin", admin);
        let e1 = role_entry("user", user);
        let e2 = role_entry("viewer", viewer);
        assert(string_views(admin@) =~= seq!["read:all"@, "write:all"@, "delete:all"@, "manage:users"@,
            "manage:system"@]);
        assert(string_views(user@) =~= seq!["read:own"@, "write:own"@]);
        assert(string_views(viewer@) =~= seq!["read:public"@]);
        let s = PermissionService { role_permissions: vec![e0, e1, e2] };
        assert(s.table() =~= builtin_roles());
        s
    }

    /// Index of the first entry for `role`.
    fn find_role(&self, role: &str) -> (r: Option<usize>)
        ensures
            match r {
                Some(i) => i < self.role_permissions@.len() && role_perms(self.table(), role@)
                    == Some(self.table()[i as int].1),
                None => role_perms(self.table(), role@) is None,
            },
    {
        let ghost t = self.table();
        assert(t.subrange(0, t.len() as int) =~= t);
        let mut i: usize = 0;
        while i < self.role_permissions.len()
            invariant
                t == self.table(),
                i <= self.role_permissions@.len(),
                role_perms(t, role@) == role_perms(t.subrange(i as int, t.len() as int), role@),
            decreases self.role_permissions.len() - i,
        {
            let ghost rest = t.subrange(i as int, t.len() as int);
            assert(rest.drop_first() =~= t.subrange(i + 1, t.len() as int));
            if str_eq(self.role_permissions[i].0.as_str(), role) {
                return Some(i);
            }
            i = i + 1;
        }
        assert(t.subrange(i as int, t.len() as int) =~= Seq::<(Seq<char>, Seq<Seq<char>>)>::empty());
        None
    }

    /// Whether one of `user_roles` grants `required_permission` or the wildcard
    /// `*`.
    pub fn check_permission(&self, user_roles: &[String], required_permission: &str) -> (b: bool)
        ensures
            b == has_permission(self.table(), string_views(user_roles@), required_permission@),
    {
        let ghost roles = string_views(user_roles@);
        let mut i: usize = 0;
        while i < user_roles.len()
            invariant
                i <= user_roles@.len(),
                roles == string_views(user_roles@),
                forall|j: int| 0 <= j < i ==> !grants(self.table(), #[trigger] roles[j], required_permission@)
                    && !grants(self.table(), roles[j], "*"@),
            decreases user_roles.len() - i,
        {
            match self.find_role(user_roles[i].as_str()) {
                Some(k) => {
                    let perms = &self.role_permissions[k].1;
                    let ghost ps = string_views(perms@);
                    assert(self.table()[k as int].1 == ps);
                    assert(role_perms(self.table(), roles[i as int]) == Some(ps));
                    let mut j: usize = 0;
                    while j < perms.len()
                        invariant
                            j <= perms@.len(),
                            i < user_roles@.len(),
                            roles == string_views(user_roles@),
                            ps == string_views(perms@),
                            role_perms(self.table(), roles[i as int]) == Some(ps),
                            forall|m: int| 0 <= m < j ==> ps[m] != required_permission@ && ps[m] != "*"@,
                        decreases perms.len() - j,
                    {
                        if str_eq(perms[j].as_str(), required_permission) || str_eq(perms[j].as_str(), "*") {
                            assert(ps.contains(ps[j as int]));
                            assert(grants(self.table(), roles[i as int], required_permission@)
                                || grants(self.table(), roles[i as int], "*"@));
                            return true;
                        }
                        j = j + 1;
                    }
                    assert(!ps.contains(required_permission@)) by {
                        if ps.contains(required_permission@) {
                            let m = choose|m: int| 0 <= m < ps.len() && ps[m] == required_permission@;
                        }
                    }
                    assert(!ps.contains("*"@)) by {
                        if ps.contains("*"@) {
                            let m = choose|m: int| 0 <= m < ps.len() && ps[m] == "*"@;
                        }
                    }
                },
                None => {},
            }
            i = i + 1;
        }
        false
    }

    /// The permissions granted by `user_roles`, sorted, each once.
    pub fn get_user_permissions(&self, user_roles: &[String]) -> (r: Vec<String>)
        ensures
            strictly_sorted(string_views(r@)),
            string_views(r@).to_set() == granted(self.table(), string_views(user_roles@)),
    {
        let ghost roles = string_views(user_roles@);
        let mut acc: Vec<Vec<char>> = Vec::new();
        let mut i: usize = 0;
        while i < user_roles.len()
            invariant
                i <= user_roles@.len(),
                roles == string_views(user_roles@),
                strictly_sorted(acc.deep_view()),
                acc.deep_view().to_set() == granted(self.table(), roles.subrange(0, i as int)),
            decreases user_roles.len() - i,
        {
            let ghost before = acc.deep_view().to_set();
            match self.find_role(user_roles[i].as_str()) {
                Some(k) => {
                    let perms = &self.role_permissions[k].1;
                    let ghost ps = string_views(perms@);
                    assert(self.table()[k as int].1 == ps);
                    assert(role_perms(self.table(), roles[i as int]) == Some(ps));
                    let mut j: usize = 0;
                    while j < perms.len()
                        invariant
                            j <= perms@.len(),
                            ps == string_views(perms@),
                            strictly_sorted(acc.deep_view()),
                            acc.deep_view().to_set() == before.union(ps.subrange(0, j as int).to_set()),
                        decreases perms.len() - j,
                    {
                        let ghost prev = acc.deep_view().to_set();
                        insert_sorted_unique(&mut acc, chars_of(perms[j].as_str()));
                        proof {
                            assert(ps.subrange(0, j + 1) =~= ps.subrange(0, j as int).push(ps[j as int]));
                            assert(ps.subrange(0, j + 1).to_set() =~= ps.subrange(0, j as int).to_set().insert(
                                ps[j as int],
                            )) by {
                                ps.subrange(0, j as int).lemma_push_to_set_commute(ps[j as int]);
                            };
                            assert(acc.deep_view().to_set() =~= before.union(ps.subrange(0, j + 1).to_set()));
                        }
                        j = j + 1;
                    }
                    proof {
                        assert(ps.subrange(0, ps.len() as int) =~= ps);
                        assert(role_perms(self.table(), roles[i as int]) == Some(ps));
                        let sub = roles.subrange(0, i + 1);
                        let pre = roles.subrange(0, i as int);
                        assert(granted(self.table(), sub) =~= before.union(ps.to_set())) by {
                            assert forall|p: Seq<char>| #[trigger] granted(self.table(), sub).contains(p)
                                == before.union(ps.to_set()).contains(p) by {
                                if granted(self.table(), sub).contains(p) {
                                    let w = choose|w: int| 0 <= w < sub.len() && #[trigger] grants(self.table(), sub[w], p);
                                    if w < i {
                                        assert(pre[w] == sub[w]);
                                        assert(grants(self.table(), pre[w], p));
                                        assert(before.contains(p));
                                    } else {
                                        assert(sub[w] == roles[i as int]);
                                        assert(ps.contains(p));
                                    }
                                }
                                if before.contains(p) {
                                    let w = choose|w: int| 0 <= w < i && #[trigger] grants(self.table(), pre[w], p);
                                    assert(sub[w] == pre[w]);
                                    assert(grants(self.table(), sub[w], p));
                                }
                                if ps.to_set().contains(p) {
                                    assert(sub[i as int] == roles[i as int]);
                                    assert(grants(self.table(), sub[i as int], p));
                                }
                            }
                        }
                    }
                },
                None => {
                    proof {
                        let sub = roles.subrange(0, i + 1);
                        let pre = roles.subrange(0, i as int);
                        assert(granted(self.table(), sub) =~= before) by {
                            assert forall|p: Seq<char>| #[trigger] granted(self.table(), sub).contains(p)
                                == before.contains(p) by {
                                if granted(self.table(), sub).contains(p) {
                                    let w = choose|w: int| 0 <= w < sub.len() && #[trigger] grants(self.table(), sub[w], p);
                                    assert(sub[i as int] == roles[i as int]);
                                    assert(w != i);
                                    assert(pre[w] == sub[w]);
                                    assert(grants(self.table(), pre[w], p));
                                }
                                if before.contains(p) {
                                    let w = choose|w: int| 0 <= w < i && #[trigger] grants(self.table(), pre[w], p);
                                    assert(sub[w] == pre[w]);
                                    assert(grants(self.table(), sub[w], p));
                                }
                            }
                        }
                    }
                },
            }
            i = i + 1;
        }
        assert(roles.subrange(0, user_roles@.len() as int) =~= roles);
        let mut out: Vec<String> = Vec::new();
        let mut k: usize = 0;
        while k < acc.len()
            invariant
                k <= acc@.len(),
                out@.len() == k,
                string_views(out@) == acc.deep_view().subrange(0, k as int),
            decreases acc.len() - k,
        {
            proof {
                lemma_char_vec_deep_view(acc@[k as int]);
                assert(acc.deep_view()[k as int] == acc@[k as int].deep_view());
            }
            let sk = string_of(&acc[k]);
            let ghost prev = out@;
            out.push(sk);
            proof {
                assert forall|m: int| 0 <= m < k + 1 implies #[trigger] string_views(out@)[m]
                    == acc.deep_view()[m] by {
                    if m < k {
                        assert(out@[m] == prev[m]);
                        assert(string_views(prev)[m] == acc.deep_view().subrange(0, k as int)[m]);
                    }
                }
                assert(string_views(out@) =~= acc.deep_view().subrange(0, k + 1));
            }
            k = k + 1;
        }
        assert(acc.deep_view().subrange(0, acc@.len() as int) =~= acc.deep_view());
        out
    }
}

/// A user holds a permission exactly when it, or the wildcard `*`, is among the
/// permissions listed for the user's roles.
pub proof fn lemma_check_agrees_with_listing(
    table: Seq<(Seq<char>, Seq<Seq<char>>)>,
    roles: Seq<Seq<char>>,
    p: Seq<char>,
)
    ensures
        has_permission(table, roles, p) <==> (granted(table, roles).contains(p) || granted(table, roles).contains(
            "*"@,
        )),
{
    if has_permission(table, roles, p) {
        let i = choose|i: int|
            0 <= i < roles.len() && (grants(table, #[trigger] roles[i], p) || grants(table, roles[i], "*"@));
        if grants(table, roles[i], p) {
            assert(granted(table, roles).contains(p));
        } else {
            assert(granted(table, roles).contains("*"@));
        }
    }
    if granted(table, roles).contains(p) {
        let i = choose|i: int| 0 <= i < roles.len() && #[trigger] grants(table, roles[i], p);
        assert(has_permission(table, roles, p));
    }
    if granted(table, roles).contains("*"@) {
        let i = choose|i: int| 0 <= i < roles.len() && #[trigger] grants(table, roles[i], "*"@);
        assert(has_permission(table, roles, p));
    }
}

/// A user account.
#[derive(Debug)]
pub struct User {
    pub id: u128,
    pub username: String,
    pub email: String,
    pub roles: Vec<String>,
    /// When the account was created, in seconds since the Unix epoch.
    pub created_at: i64,
    /// When the user last logged in, in seconds since the Unix epoch.
    pub last_login: Option<i64>,
    pub is_active: bool,
}

/// What a token states: the user (`sub`, the hyphenated identifier), the user's
/// name and roles, when it expires and when it was issued (seconds since the
/// Unix epoch).
#[derive(Debug)]
pub struct TokenClaims {
    pub sub: String,
    pub username: String,
    pub roles: Vec<String>,
    pub exp: usize,
    pub iat: usize,
}

/// What a successful login or refresh grants: the claims to be signed into the
/// token, the user, and when the token expires.
#[derive(Debug)]
pub struct AuthGrant {
    pub claims: TokenClaims,
    pub user: User,
    pub expires_at: i64,
}

/// The one account the service knows: `admin` with password `admin123`.
pub open spec fn valid_credentials(username: Seq<char>, password: Seq<char>) -> bool {
    username == "admin"@ && password == "admin123"@
}

/// Thirty days in seconds.
pub open spec fn thirty_days() -> int {
    2_592_000
}

/// The error of a refused login.
pub open spec fn bad_credentials() -> Seq<char> {
    "用户名或密码错误"@
}

/// A time the clock can give.
pub open spec fn clock_time(t: i64) -> bool {
    in_chrono_range(t as int)
}

/// `u` is the active account `username` with `email` and `roles`.
pub open spec fn account_is(u: User, username: Seq<char>, email: Seq<char>, roles: Seq<Seq<char>>) -> bool {
    &&& u.username@ == username
    &&& u.email@ == email
    &&& string_views(u.roles@) == roles
    &&& u.is_active
}

/// `c` are the claims of a token for `u` issued at `now` and valid for `expiry`
/// seconds.
pub open spec fn claims_for(c: TokenClaims, u: User, now: i64, expiry: i64) -> bool {
    &&& c.sub@ == uuid_hyphenated(u.id)
    &&& uuid_of(c.sub@) == Some(u.id)
    &&& c.username@ == u.username@
    &&& string_views(c.roles@) == string_views(u.roles@)
    &&& c.exp == (now + expiry) as usize
    &&& c.iat == now as usize
}

/// Issues and checks the claims of users' tokens; signing and reading the tokens
/// themselves is left to the caller, with the secret this service holds.
#[derive(Debug)]
pub struct AuthService {
    jwt_secret: String,
    token_expiry_secs: i64,
}

fn admin_roles() -> (r: Vec<String>)
    ensures
        string_views(r@) == seq!["admin"@],
{
    let r = vec!["admin".to_string()];
    assert(string_views(r@) =~= seq!["admin"@]);
    r
}

impl AuthService {
    /// The secret tokens are signed with.
    pub closed spec fn secret(&self) -> Seq<char> {
        self.jwt_secret@
    }

    /// How long a token stays valid, in seconds.
    pub closed spec fn expiry(&self) -> i64 {
        self.token_expiry_secs
    }

    /// A service signing with `jwt_secret` whose tokens stay valid 24 hours.
    pub fn new(jwt_secret: String) -> (s: Self)
        ensures
            s.secret() == jwt_secret@,
            s.expiry() == 86400,
    {
        AuthService { jwt_secret, token_expiry_secs: 86400 }
    }

    /// The secret tokens are signed with.
    pub fn jwt_secret(&self) -> (s: &str)
        ensures
            s@ == self.secret(),
    {
        self.jwt_secret.as_str()
    }

    /// How long a token stays valid, in seconds.
    pub fn token_expiry_secs(&self) -> (t: i64)
        ensures
            t == self.expiry(),
    {
        self.token_expiry_secs
    }

    /// The claims of a token for `user` issued at `now`.
    pub fn generate_claims(&self, user: &User, now: i64) -> (c: TokenClaims)
        requires
            clock_time(now),
            0 <= self.expiry() <= 86400,
        ensures
            claims_for(c, *user, now, self.expiry()),
    {
        let sub = uuid_text(user.id);
        TokenClaims {
            sub,
            username: user.username.clone(),
            roles: clone_strings(&user.roles),
            exp: (now + self.token_expiry_secs) as usize,
            iat: now as usize,
        }
    }

    /// Logs `username` in: only `admin` with password `admin123` is accepted; the
    /// account is created now with a fresh identifier, logged in now, and granted
    /// a token issued now.
    pub fn login(&self, username: &str, password: &str) -> (r: Result<AuthGrant, String>)
        requires
            0 <= self.expiry() <= 86400,
        ensures
            r is Ok <==> valid_credentials(username@, password@),
            match r {
                Ok(g) => {
                    &&& account_is(g.user, username@, "admin@duckhub.com"@, seq!["admin"@])
                    &&& g.user.last_login == Some(g.user.created_at)
                    &&& claims_for(g.claims, g.user, g.user.created_at, self.expiry())
                    &&& g.expires_at == g.user.created_at + self.expiry()
                },
                Err(e) => e@ == bad_credentials(),
            },
    {
        proof {
            reveal_strlit("admin");
            reveal_strlit("admin123");
        }
        if !(str_eq(username, "admin") && str_eq(password, "admin123")) {
            return Err("用户名或密码错误".to_string());
        }
        let now = now_secs();
        let user = User {
            id: new_uuid(),
            username: username.to_string(),
            email: "admin@duckhub.com".to_string(),
            roles: admin_roles(),
            created_at: now,
            last_login: Some(now),
            is_active: true,
        };
        let claims = self.generate_claims(&user, now);
        Ok(AuthGrant { claims, user, expires_at: now + self.token_expiry_secs })
    }

    /// Checks `username` and `password`: only `admin` with password `admin123` is
    /// accepted, as an account created thirty days before it logged in now.
    pub fn authenticate(&self, username: &str, password: &str) -> (r: Result<User, String>)
        ensures
            r is Ok <==> valid_credentials(username@, password@),
            match r {
                Ok(u) => {
                    &&& account_is(u, username@, "admin@duckhub.com"@, seq!["admin"@])
                    &&& u.last_login == Some((u.created_at + thirty_days()) as i64)
                    &&& clock_time((u.created_at + thirty_days()) as i64)
                },
                Err(e) => e@ == bad_credentials(),
            },
    {
        proof {
            reveal_strlit("admin");
            reveal_strlit("admin123");
        }
        if !(str_eq(username, "admin") && str_eq(password, "admin123")) {
            return Err("用户名或密码错误".to_string());
        }
        let now = now_secs();
        Ok(User {
            id: new_uuid(),
            username: username.to_string(),
            email: "admin@duckhub.com".to_string(),
            roles: admin_roles(),
            created_at: now - 2_592_000,
            last_login: Some(now),
            is_active: true,
        })
    }

    /// A new grant from the claims of a token that was checked: the subject must
    /// be an identifier (else the error reads `无效的用户ID: ` and the parser's
    /// message); the user keeps the name and roles the claims carry, was created
    /// thirty days before now, logged in now, and is granted a token issued now.
    pub fn refresh_from_claims(&self, claims: TokenClaims) -> (r: Result<AuthGrant, String>)
        requires
            0 <= self.expiry() <= 86400,
        ensures
            r is Ok <==> uuid_of(claims.sub@) is Some,
            match r {
                Ok(g) => {
                    &&& Some(g.user.id) == uuid_of(claims.sub@)
                    &&& account_is(g.user, claims.username@, "admin@duckhub.com"@, string_views(claims.roles@))
                    &&& g.user.last_login == Some((g.user.created_at + thirty_days()) as i64)
                    &&& claims_for(g.claims, g.user, (g.user.created_at + thirty_days()) as i64, self.expiry())
                    &&& g.expires_at == g.user.created_at + thirty_days() + self.expiry()
                },
                Err(e) => is_prefix("无效的用户ID: "@, e@),
            },
    {
        let id = match parse_uuid(claims.sub.as_str()) {
            Ok(v) => v,
            Err(msg) => {
                let mut out = chars_of("无效的用户ID: ");
                let ghost p = out@;
                let tail = chars_of(msg.as_str());
                append_chars(&mut out, &tail);
                assert(out@.subrange(0, p.len() as int) =~= p);
                return Err(string_of(&out));
            },
        };
        let now = now_secs();
        let user = User {
            id,
            username: claims.username,
            email: "admin@duckhub.com".to_string(),
            roles: claims.roles,
            created_at: now - 2_592_000,
            last_login: Some(now),
            is_active: true,
        };
        let c = self.generate_claims(&user, now);
        Ok(AuthGrant { claims: c, user, expires_at: now + self.token_expiry_secs })
    }

    /// The account `user_id`: `admin`, created thirty days before it logged in now.
    pub fn get_user_by_id(&self, user_id: u128) -> (u: User)
        ensures
            u.id == user_id,
            account_is(u, "admin"@, "admin@duckhub.com"@, seq!["admin"@]),
            u.last_login == Some((u.created_at + thirty_days()) as i64),
    {
        let now = now_secs();
        User {
            id: user_id,
            username: "admin".to_string(),
            email: "admin@duckhub.com".to_string(),
            roles: admin_roles(),
            created_at: now - 2_592_000,
            last_login: Some(now),
            is_active: true,
        }
    }

    /// The account `user_id` with the name and e-mail of the profile where it
    /// gives them (`admin` and `admin@duckhub.com` otherwise).
    pub fn update_user_profile(&self, user_id: u128, username: Option<String>, email: Option<String>) -> (u: User)
        ensures
            u.id == user_id,
            account_is(
                u,
                match username { Some(n) => n@, None => "admin"@ },
                match email { Some(e) => e@, None => "admin@duckhub.com"@ },
                seq!["admin"@],
            ),
            u.last_login == Some((u.created_at + thirty_days()) as i64),
    {
        let now = now_secs();
        let name = match username {
            Some(n) => n,
            None => "admin".to_string(),
        };
        let mail = match email {
            Some(e) => e,
            None => "admin@duckhub.com".to_string(),
        };
        User {
            id: user_id,
            username: name,
            email: mail,
            roles: admin_roles(),
            created_at: now - 2_592_000,
            last_login: Some(now),
            is_active: true,
        }
    }

    /// How a login request is answered: a request whose user name or password has
    /// the wrong length is refused as malformed with the failing checks, and its
    /// credentials are not looked at; otherwise wrong credentials are refused, and
    /// right ones authenticate the user (see `authenticate`). No token is made here.
    pub fn check_login(&self, request: &LoginRequest) -> (r: LoginOutcome)
        ensures
            r is Invalid <==> request.failing_fields().len() > 0,
            r matches LoginOutcome::Invalid(e) ==> field_names(e.errors@) == request.failing_fields(),
            r is Unauthorized <==> (request.failing_fields().len() == 0 && !valid_credentials(
                request.username@,
                request.password@,
            )),
            r matches LoginOutcome::Unauthorized(m) ==> m@ == bad_credentials(),
            r matches LoginOutcome::Authenticated(u) ==> {
                &&& request.failing_fields().len() == 0
                &&& valid_credentials(request.username@, request.password@)
                &&& account_is(u, request.username@, "admin@duckhub.com"@, seq!["admin"@])
                &&& u.last_login == Some((u.created_at + thirty_days()) as i64)
                &&& clock_time((u.created_at + thirty_days()) as i64)
            },
    {
        match request.validate() {
            Err(e) => LoginOutcome::Invalid(e),
            Ok(()) => match self.authenticate(request.username.as_str(), request.password.as_str()) {
                Ok(u) => LoginOutcome::Authenticated(u),
                Err(m) => LoginOutcome::Unauthorized(m),
            },
        }
    }
}

/// How a login request was answered.
#[derive(Debug)]
pub enum LoginOutcome {
    /// Malformed: the checks that failed.
    Invalid(ValidationErrors),
    /// Wrong credentials, with the message.
    Unauthorized(String),
    /// The user the credentials belong to.
    Authenticated(User),
}

impl LoginOutcome {
    /// The HTTP status of the answer: 400 when malformed, 401 for wrong
    /// credentials, 200 when authenticated.
    pub fn http_status(&self) -> (s: u16)
        ensures
            s == match self {
                LoginOutcome::Invalid(_) => 400u16,
                LoginOutcome::Unauthorized(_) => 401u16,
                LoginOutcome::Authenticated(_) => 200u16,
            },
    {
        match self {
            LoginOutcome::Invalid(_) => 400,
            LoginOutcome::Unauthorized(_) => 401,
            LoginOutcome::Authenticated(_) => 200,
        }
    }
}

/// A token granted at login carries the user back: its subject reads as the
/// user's identifier, so refreshing with its claims succeeds and keeps the user's
/// identifier, name and roles.
pub proof fn lemma_login_claims_refresh(g: AuthGrant, expiry: i64)
    requires
        claims_for(g.claims, g.user, g.user.created_at, expiry),
    ensures
        uuid_of(g.claims.sub@) == Some(g.user.id),
        g.claims.username@ == g.user.username@,
        string_views(g.claims.roles@) == string_views(g.user.roles@),
{
}

} // verus!
