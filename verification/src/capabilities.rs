//! Capability grants and capability tokens.
//!
//! A [`Resource`] names a domain and a list of pointer patterns inside it, a
//! [`Capability`] grants a list of action names on a resource, an
//! [`AuthInfo`] identifies the requesting application and carries its
//! (optional) capabilities, and [`Claims`] is the time-bounded token binding
//! an issuer/audience pair to a grant.
//!
//! The pointer-pattern policy chosen here: the pattern `"*"` matches every
//! pointer, every other pattern matches exactly itself. The same rule is
//! applied to action names.

use vstd::prelude::*;

use crate::clock;
use crate::CoreError;

verus! {

/// A namespace (`domain`) and the match patterns (`pointers`) a grant covers
/// within it.
#[derive(Debug)]
pub struct Resource {
    pub domain: String,
    pub pointers: Vec<String>,
}

/// The spec-level image of a [`Resource`].
pub struct ResourceV {
    pub domain: Seq<char>,
    pub pointers: Seq<Seq<char>>,
}

impl View for Resource {
    type V = ResourceV;

    open spec fn view(&self) -> ResourceV {
        ResourceV { domain: self.domain@, pointers: self.pointers.deep_view() }
    }
}

/// Actions (`can`) permitted on a resource (`with`).
#[derive(Debug)]
pub struct Capability {
    pub with: Resource,
    pub can: Vec<String>,
}

/// The spec-level image of a [`Capability`].
pub struct CapabilityV {
    pub with: ResourceV,
    pub can: Seq<Seq<char>>,
}

impl View for Capability {
    type V = CapabilityV;

    open spec fn view(&self) -> CapabilityV {
        CapabilityV { with: self.with@, can: self.can.deep_view() }
    }
}

/// Identity of a requesting application plus the capabilities it was
/// granted. Absent `capabilities` means no operation is authorized.
#[derive(Debug)]
pub struct AuthInfo {
    pub app_name: String,
    pub app_desc: String,
    pub app_domain: Option<String>,
    pub app_url: Option<String>,
    pub app_icon_path: Option<String>,
    pub capabilities: Option<Vec<Capability>>,
}

/// The spec-level image of an [`AuthInfo`].
pub struct AuthInfoV {
    pub app_name: Seq<char>,
    pub app_desc: Seq<char>,
    pub app_domain: Option<Seq<char>>,
    pub app_url: Option<Seq<char>>,
    pub app_icon_path: Option<Seq<char>>,
    pub capabilities: Option<Seq<CapabilityV>>,
}

impl View for AuthInfo {
    type V = AuthInfoV;

    open spec fn view(&self) -> AuthInfoV {
        AuthInfoV {
            app_name: self.app_name@,
            app_desc: self.app_desc@,
            app_domain: self.app_domain.deep_view(),
            app_url: self.app_url.deep_view(),
            app_icon_path: self.app_icon_path.deep_view(),
            capabilities: match self.capabilities {
                Some(caps) => Some(caps@.map_values(|c: Capability| c@)),
                None => None,
            },
        }
    }
}

/// An [`AuthInfo`] tagged with the request it came in on.
#[derive(Debug)]
pub struct AuthInfoExtended {
    pub request_id: String,
    pub auth: AuthInfo,
}

/// A capability token: an expiring assertion that `iss` granted `aud` the
/// embedded capabilities. `iat` and `exp` are unix seconds, with
/// `exp == iat + lifetime` (saturated at `u64::MAX`).
#[derive(Debug)]
pub struct Claims {
    iss: String,
    aud: String,
    exp: u64,
    iat: u64,
    pub capabilities: AuthInfo,
}

/// The spec-level image of a [`Claims`] token.
pub struct ClaimsV {
    pub iss: Seq<char>,
    pub aud: Seq<char>,
    pub exp: u64,
    pub iat: u64,
    pub capabilities: AuthInfoV,
}

impl View for Claims {
    type V = ClaimsV;

    closed spec fn view(&self) -> ClaimsV {
        ClaimsV {
            iss: self.iss@,
            aud: self.aud@,
            exp: self.exp,
            iat: self.iat,
            capabilities: self.capabilities@,
        }
    }
}

impl Clone for Resource {
    fn clone(&self) -> (r: Self)
        ensures
            r@ == self@,
    {
        let r = Resource { domain: self.domain.clone(), pointers: self.pointers.clone() };
        proof {
            assert(r.pointers.deep_view() =~= self.pointers.deep_view());
        }
        r
    }
}

impl Clone for Capability {
    fn clone(&self) -> (r: Self)
        ensures
            r@ == self@,
    {
        let r = Capability { with: self.with.clone(), can: self.can.clone() };
        proof {
            assert(r.can.deep_view() =~= self.can.deep_view());
        }
        r
    }
}

impl Clone for AuthInfo {
    fn clone(&self) -> (r: Self)
        ensures
            r@ == self@,
    {
        let capabilities: Option<Vec<Capability>> = match &self.capabilities {
            None => None,
            Some(caps) => {
                let mut out: Vec<Capability> = Vec::new();
                let mut i: usize = 0;
                while i < caps.len()
                    invariant
                        0 <= i <= caps.len(),
                        out@.len() == i,
                        forall|k: int| 0 <= k < i ==> (#[trigger] out@[k])@ == caps@[k]@,
                    decreases caps.len() - i,
                {
                    out.push(caps[i].clone());
                    i += 1;
                }
                Some(out)
            },
        };
        let r = AuthInfo {
            app_name: self.app_name.clone(),
            app_desc: self.app_desc.clone(),
            app_domain: match &self.app_domain {
                Some(s) => Some(s.clone()),
                None => None,
            },
            app_url: match &self.app_url {
                Some(s) => Some(s.clone()),
                None => None,
            },
            app_icon_path: match &self.app_icon_path {
                Some(s) => Some(s.clone()),
                None => None,
            },
            capabilities,
        };
        proof {
            if self.capabilities is Some {
                assert(r@.capabilities->Some_0 =~= self@.capabilities->Some_0);
            }
        }
        r
    }
}

impl Default for Resource {
    /// The empty resource: no domain, no pointer patterns.
    fn default() -> (r: Self)
        ensures
            r@.domain == Seq::<char>::empty(),
            r@.pointers == Seq::<Seq<char>>::empty(),
    {
        let r = Resource { domain: String::new(), pointers: Vec::new() };
        proof {
            assert(r@.pointers =~= Seq::<Seq<char>>::empty());
        }
        r
    }
}

impl Default for Capability {
    /// The empty capability: the empty resource with no actions granted.
    fn default() -> (r: Self)
        ensures
            r@.with.domain == Seq::<char>::empty(),
            r@.with.pointers == Seq::<Seq<char>>::empty(),
            r@.can == Seq::<Seq<char>>::empty(),
    {
        let r = Capability { with: Resource::default(), can: Vec::new() };
        proof {
            assert(r@.can =~= Seq::<Seq<char>>::empty());
        }
        r
    }
}

impl Default for AuthInfo {
    /// The empty grant: an unnamed application with no capabilities, which
    /// authorizes nothing.
    fn default() -> (r: Self)
        ensures
            r@.app_name == Seq::<char>::empty(),
            r@.app_desc == Seq::<char>::empty(),
            r@.app_domain is None,
            r@.app_url is None,
            r@.app_icon_path is None,
            r@.capabilities is None,
    {
        AuthInfo {
            app_name: String::new(),
            app_desc: String::new(),
            app_domain: None,
            app_url: None,
            app_icon_path: None,
            capabilities: None,
        }
    }
}

/// The one pointer/action pattern with non-exact semantics: `"*"`.
pub open spec fn wildcard() -> Seq<char> {
    seq!['*']
}

/// Whether `pattern` matches `pointer`: `"*"` matches everything, any other
/// pattern only itself. A pure function of its two arguments, as the
/// authorization model requires.
pub open spec fn pattern_matches(pattern: Seq<char>, pointer: Seq<char>) -> bool {
    pattern == wildcard() || pattern == pointer
}

/// Whether a capability grants `action` on `(domain, pointer)`: the domain
/// must match exactly, some pointer pattern must match `pointer`, and some
/// entry of `can` must match `action` (wildcard allowed).
pub open spec fn capability_grants(
    c: CapabilityV,
    domain: Seq<char>,
    pointer: Seq<char>,
    action: Seq<char>,
) -> bool {
    &&& c.with.domain == domain
    &&& exists|i: int| 0 <= i < c.with.pointers.len() && pattern_matches(
        #[trigger] c.with.pointers[i],
        pointer,
    )
    &&& exists|i: int| 0 <= i < c.can.len() && pattern_matches(#[trigger] c.can[i], action)
}

/// Whether a grant authorizes `action` on `(domain, pointer)`: some listed
/// capability grants it. No capability list means nothing is authorized.
pub open spec fn auth_info_grants(
    a: AuthInfoV,
    domain: Seq<char>,
    pointer: Seq<char>,
    action: Seq<char>,
) -> bool {
    match a.capabilities {
        Some(caps) => exists|i: int|
            0 <= i < caps.len() && capability_grants(#[trigger] caps[i], domain, pointer, action),
        None => false,
    }
}

/// Whether a token authorizes `action` on `(domain, pointer)` at time `now`:
/// the token must not be expired and its grant must cover the request.
/// "No capability" and "explicit deny" are the same outcome: `false`.
pub open spec fn claims_authorize(
    c: ClaimsV,
    domain: Seq<char>,
    pointer: Seq<char>,
    action: Seq<char>,
    now: u64,
) -> bool {
    now <= c.exp && auth_info_grants(c.capabilities, domain, pointer, action)
}

/// Law: past its expiry moment a token denies every request, whatever its
/// grant says.
pub proof fn lemma_expired_token_denies(
    c: ClaimsV,
    domain: Seq<char>,
    pointer: Seq<char>,
    action: Seq<char>,
    now: u64,
)
    requires
        now > c.exp,
    ensures
        !claims_authorize(c, domain, pointer, action, now),
{
}

/// Exec counterpart of [`pattern_matches`].
pub fn pattern_matches_exec(pattern: &String, pointer: &String) -> (r: bool)
    ensures
        r == pattern_matches(pattern@, pointer@),
{
    let star: String = "*".to_owned();
    proof {
        reveal_strlit("*");
        assert(star@ =~= wildcard());
    }
    *pattern == star || *pattern == *pointer
}

/// Whether some pattern in `patterns` matches `pointer`.
fn some_pattern_matches(patterns: &Vec<String>, pointer: &String) -> (r: bool)
    ensures
        r == exists|i: int|
            0 <= i < patterns.deep_view().len() && pattern_matches(
                #[trigger] patterns.deep_view()[i],
                pointer@,
            ),
{
    let ghost ps = patterns.deep_view();
    let mut i: usize = 0;
    while i < patterns.len()
        invariant
            0 <= i <= patterns.len(),
            ps == patterns.deep_view(),
            ps.len() == patterns.len(),
            forall|k: int| 0 <= k < ps.len() ==> ps[k] == patterns@[k]@,
            forall|k: int| 0 <= k < i ==> !pattern_matches(#[trigger] ps[k], pointer@),
        decreases patterns.len() - i,
    {
        if pattern_matches_exec(&patterns[i], pointer) {
            assert(pattern_matches(ps[i as int], pointer@));
            return true;
        }
        i += 1;
    }
    false
}

impl Capability {
    /// Exec counterpart of [`capability_grants`].
    pub fn grants(&self, domain: &String, pointer: &String, action: &String) -> (r: bool)
        ensures
            r == capability_grants(self@, domain@, pointer@, action@),
    {
        if self.with.domain != *domain {
            return false;
        }
        if !some_pattern_matches(&self.with.pointers, pointer) {
            return false;
        }
        some_pattern_matches(&self.can, action)
    }
}

impl AuthInfo {
    /// Exec counterpart of [`auth_info_grants`]: scan the capability list for
    /// a grant covering the request; the first match wins, no match denies.
    pub fn grants(&self, domain: &String, pointer: &String, action: &String) -> (r: bool)
        ensures
            r == auth_info_grants(self@, domain@, pointer@, action@),
    {
        match &self.capabilities {
            None => false,
            Some(caps) => {
                let ghost cs = self@.capabilities->Some_0;
                let mut i: usize = 0;
                while i < caps.len()
                    invariant
                        0 <= i <= caps.len(),
                        self@.capabilities == Some(cs),
                        cs == caps@.map_values(|c: Capability| c@),
                        cs.len() == caps.len(),
                        forall|k: int|
                            0 <= k < i ==> !capability_grants(
                                #[trigger] cs[k],
                                domain@,
                                pointer@,
                                action@,
                            ),
                    decreases caps.len() - i,
                {
                    if caps[i].grants(domain, pointer, action) {
                        proof {
                            assert(capability_grants(
                                self@.capabilities->Some_0[i as int],
                                domain@,
                                pointer@,
                                action@,
                            ));
                        }
                        return true;
                    }
                    i += 1;
                }
                false
            },
        }
    }
}

impl Claims {
    /// Build a token from explicit parts. `exp` is `issued_at + lifetime`,
    /// saturated at `u64::MAX` so that construction never overflows.
    pub fn from_parts(
        issuer: String,
        audience: String,
        issued_at: u64,
        lifetime: u64,
        capabilities: AuthInfo,
    ) -> (r: Claims)
        ensures
            r@.iss == issuer@,
            r@.aud == audience@,
            r@.iat == issued_at,
            r@.capabilities == capabilities@,
            issued_at + lifetime <= u64::MAX ==> r@.exp == issued_at + lifetime,
            issued_at + lifetime > u64::MAX ==> r@.exp == u64::MAX,
            r@.exp >= r@.iat,
    {
        let exp: u64 = if lifetime <= u64::MAX - issued_at {
            issued_at + lifetime
        } else {
            u64::MAX
        };
        Claims { iss: issuer, aud: audience, exp, iat: issued_at, capabilities }
    }

    /// Build a token stamped from the wall clock: `iat` is the current unix
    /// time, `exp = iat + expiration_time` (saturated). Fails with
    /// [`CoreError::EnvironmentFault`] only when the clock cannot be read.
    pub fn new(
        issuer: String,
        audience: String,
        expiration_time: u64,
        capabilities: AuthInfo,
    ) -> (r: Result<Claims, CoreError>)
        ensures
            match r {
                Ok(c) => {
                    &&& c@.iss == issuer@
                    &&& c@.aud == audience@
                    &&& c@.capabilities == capabilities@
                    &&& c@.iat + expiration_time <= u64::MAX ==> c@.exp == c@.iat
                        + expiration_time
                    &&& c@.iat + expiration_time > u64::MAX ==> c@.exp == u64::MAX
                    &&& c@.exp >= c@.iat
                },
                Err(e) => e is EnvironmentFault,
            },
    {
        match clock::unix_time_now() {
            Some(now) => Ok(Claims::from_parts(issuer, audience, now, expiration_time,
            capabilities)),
            None => Err(CoreError::EnvironmentFault),
        }
    }

    /// Exec counterpart of [`claims_authorize`]: decide whether this token
    /// authorizes `action` on `(domain, pointer)` at time `now` (unix
    /// seconds). An expired token denies everything.
    pub fn authorizes(&self, domain: &String, pointer: &String, action: &String, now: u64) -> (r:
        bool)
        ensures
            r == claims_authorize(self@, domain@, pointer@, action@, now),
    {
        now <= self.exp && self.capabilities.grants(domain, pointer, action)
    }
}

} // verus!
