use vstd::prelude::*;

verus! {

/// The party a set of claims is issued for.
#[derive(Clone, Copy, Debug, PartialEq, Eq, Structural)]
pub enum Audience {
    Web,
    Api,
}

/// The name under which an audience appears in a token.
pub open spec fn audience_name(a: Audience) -> Seq<char> {
    match a {
        Audience::Web => seq!['w', 'e', 'b'],
        Audience::Api => seq!['a', 'p', 'i'],
    }
}

impl Audience {
    /// The audience's name as it appears in a token: `web` or `api`.
    pub fn as_str(&self) -> (r: &'static str)
        ensures
            r@ == audience_name(*self),
    {
        match self {
            Audience::Web => {
                proof { reveal_strlit("web"); }
                "web"
            },
            Audience::Api => {
                proof { reveal_strlit("api"); }
                "api"
            },
        }
    }

    pub fn to_string(&self) -> (r: String)
        ensures
            r@ == audience_name(*self),
    {
        String::from_str(self.as_str())
    }
}

/// How long a set of claims stays valid after it is issued, in seconds.
pub const CLAIMS_LIFETIME_SECS: u64 = 600;

/// The expiry of claims issued at `now`: the lifetime later, or the largest
/// timestamp where that would not fit.
pub open spec fn expiry_after(now: u64) -> u64 {
    if now as int + CLAIMS_LIFETIME_SECS as int <= u64::MAX as int {
        (now + CLAIMS_LIFETIME_SECS) as u64
    } else {
        u64::MAX
    }
}

/// A login session: the account it belongs to and its opaque token.
pub struct Session {
    pub account_id: i64,
    pub token: String,
}

/// What a token says of its bearer: the account, when it expires (seconds
/// since the Unix epoch) and whom it was issued for.
#[derive(Clone, Debug)]
pub struct Claims {
    pub sub: i64,
    pub exp: u64,
    pub aud: Vec<Audience>,
}

impl Claims {
    /// Claims for the web, issued at `now` for the session's account.
    pub fn for_session_at(session: &Session, now: u64) -> (r: Claims)
        ensures
            r.sub == session.account_id,
            r.exp == expiry_after(now),
            r.aud@ == seq![Audience::Web],
    {
        let exp = if now <= u64::MAX - CLAIMS_LIFETIME_SECS {
            now + CLAIMS_LIFETIME_SECS
        } else {
            u64::MAX
        };
        let mut aud: Vec<Audience> = Vec::new();
        aud.push(Audience::Web);
        Claims { sub: session.account_id, exp, aud }
    }

    /// Claims for a bearer of an API token of the account. They carry no
    /// expiry: the token is checked against the store on every request.
    pub fn for_api(account_id: i64) -> (r: Claims)
        ensures
            r.sub == account_id,
            r.exp == 0,
            r.aud@ == seq![Audience::Api],
    {
        let mut aud: Vec<Audience> = Vec::new();
        aud.push(Audience::Api);
        Claims { sub: account_id, exp: 0, aud }
    }
}

} // verus!
