//! The authentication middleware in front of the API: which paths need no token, how
//! the bearer token is read from the `Authorization` header, and what is decided.
use vstd::prelude::*;
use crate::text::{string_views, clone_strings, str_starts_with, is_prefix, chars_of, string_of};
use crate::format::append_chars;
use crate::ambient::{uuid_of, parse_uuid};

verus! {

/// The paths served without a token unless more are added.
pub open spec fn default_skip_paths() -> Seq<Seq<char>> {
    seq!["/health"@, "/metrics"@, "/api/v1/auth/login"@, "/api/v1/auth/refresh"@]
}

/// The authentication middleware: requests to a path that starts with one of the skip
/// paths pass without a token.
#[derive(Debug)]
pub struct AuthMiddleware {
    skip_paths: Vec<String>,
}

/// The middleware wrapped around a service.
#[derive(Debug)]
pub struct AuthMiddlewareService<S> {
    service: S,
    skip_paths: Vec<String>,
}

/// Whether some path of `paths` is a prefix of `path`.
pub open spec fn skipped(paths: Seq<Seq<char>>, path: Seq<char>) -> bool {
    exists|i: int| 0 <= i < paths.len() && is_prefix(#[trigger] paths[i], path)
}

impl AuthMiddleware {
    /// The skip paths, in order.
    pub closed spec fn paths(&self) -> Seq<Seq<char>> {
        string_views(self.skip_paths@)
    }

    /// A middleware that skips `/health`, `/metrics` and the login and refresh
    /// endpoints.
    pub fn new() -> (m: Self)
        ensures
            m.paths() == default_skip_paths(),
    {
        let m = AuthMiddleware {
            skip_paths: vec![
                "/health".to_string(),
                "/metrics".to_string(),
                "/api/v1/auth/login".to_string(),
                "/api/v1/auth/refresh".to_string(),
            ],
        };
        assert(m.paths() =~= default_skip_paths());
        m
    }

    /// The middleware with `paths` added after the current skip paths.
    pub fn with_skip_paths(self, paths: Vec<String>) -> (m: Self)
        ensures
            m.paths() == self.paths() + string_views(paths@),
    {
        let mut s = self;
        let ghost before = s.skip_paths@;
        let mut extra = paths;
        s.skip_paths.append(&mut extra);
        assert(string_views(s.skip_paths@) =~= string_views(before) + string_views(paths@));
        s
    }

    /// Wraps `service` in the middleware, with the same skip paths.
    pub fn new_transform<S>(&self, service: S) -> (t: AuthMiddlewareService<S>)
        ensures
            t.inner() == service,
            t.paths() == self.paths(),
    {
        AuthMiddlewareService { service, skip_paths: clone_strings(&self.skip_paths) }
    }
}

/// What the middleware does with a request.
#[derive(Debug)]
pub enum AuthDecision {
    /// The path needs no token: pass the request on.
    Pass,
    /// The token was valid for this user: pass the request on with the user.
    Authenticated(u128),
    /// Refuse with 401.
    Unauthorized,
}

impl<S> AuthMiddlewareService<S> {
    /// The wrapped service.
    pub closed spec fn inner(&self) -> S {
        self.service
    }

    /// The wrapped service.
    pub fn service(&self) -> (s: &S)
        ensures
            *s == self.inner(),
    {
        &self.service
    }

    /// The skip paths, in order.
    pub closed spec fn paths(&self) -> Seq<Seq<char>> {
        string_views(self.skip_paths@)
    }

    /// Whether `path` starts with one of the skip paths.
    pub fn skips(&self, path: &str) -> (b: bool)
        ensures
            b == skipped(self.paths(), path@),
    {
        let mut i: usize = 0;
        while i < self.skip_paths.len()
            invariant
                i <= self.skip_paths@.len(),
                forall|j: int| 0 <= j < i ==> !is_prefix(#[trigger] self.paths()[j], path@),
            decreases self.skip_paths.len() - i,
        {
            if str_starts_with(path, self.skip_paths[i].as_str()) {
                assert(is_prefix(self.paths()[i as int], path@));
                return true;
            }
            i = i + 1;
        }
        false
    }

    /// The decision for a request to `path`, given what checking its bearer token
    /// gave (`None` when the request carries no bearer token): skip paths pass,
    /// a valid token passes with its user, anything else is refused.
    pub fn decide(&self, path: &str, token_check: Option<Result<u128, String>>) -> (d: AuthDecision)
        ensures
            skipped(self.paths(), path@) ==> d is Pass,
            !skipped(self.paths(), path@) ==> match token_check {
                Some(Ok(id)) => d == AuthDecision::Authenticated(id),
                _ => d is Unauthorized,
            },
    {
        if self.skips(path) {
            return AuthDecision::Pass;
        }
        match token_check {
            Some(Ok(id)) => AuthDecision::Authenticated(id),
            _ => AuthDecision::Unauthorized,
        }
    }
}

/// The token of an `Authorization` header value of the form `Bearer <token>`.
pub open spec fn bearer_of(header: Seq<char>) -> Option<Seq<char>> {
    if is_prefix("Bearer "@, header) {
        Some(header.subrange(7, header.len() as int))
    } else {
        None
    }
}

/// Reads the token out of an `Authorization` header value that starts with
/// `Bearer `.
pub fn bearer_token(header: &str) -> (t: Option<String>)
    ensures
        match t {
            Some(s) => bearer_of(header@) == Some(s@),
            None => bearer_of(header@) is None,
        },
{
    proof {
        reveal_strlit("Bearer ");
    }
    if !str_starts_with(header, "Bearer ") {
        return None;
    }
    let cs = chars_of(header);
    let mut out: Vec<char> = Vec::new();
    let mut i: usize = 7;
    while i < cs.len()
        invariant
            7 <= i <= cs.len(),
            cs@ == header@,
            out@ == header@.subrange(7, i as int),
        decreases cs.len() - i,
    {
        out.push(cs[i]);
        i = i + 1;
        assert(out@ =~= header@.subrange(7, i as int));
    }
    Some(string_of(&out))
}

/// The user a token's subject names: the subject must be a UUID; otherwise the
/// error reads `无效的用户ID格式: ` and the parser's message.
pub fn user_id_from_subject(sub: &str) -> (r: Result<u128, String>)
    ensures
        match r {
            Ok(v) => uuid_of(sub@) == Some(v),
            Err(e) => uuid_of(sub@) is None && is_prefix("无效的用户ID格式: "@, e@),
        },
{
    match parse_uuid(sub) {
        Ok(v) => Ok(v),
        Err(msg) => {
            let mut out = chars_of("无效的用户ID格式: ");
            let ghost p = out@;
            let tail = chars_of(msg.as_str());
            append_chars(&mut out, &tail);
            assert(out@.subrange(0, p.len() as int) =~= p);
            Err(string_of(&out))
        },
    }
}

} // verus!
