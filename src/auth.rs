//! Decisions at the login boundary: the verdict on a game-account proof, the
//! message that reports a refused one, and the session token in a header.
use vstd::prelude::*;

verus! {

/// The verdict on a game-account login proof.
#[derive(Debug, Clone, PartialEq, Eq)]
pub enum Verdict {
    /// The proof holds for the account, user id and name given.
    Strong,
    /// The proof holds for the account but under another name; that name.
    Weak(String),
    /// The proof does not hold; the reason given.
    Invalid(String),
}

/// The answer of the proof-checking service.
#[derive(Debug, Clone)]
pub struct ArgonResponse {
    pub valid: bool,
    pub valid_weak: bool,
    pub cause: Option<String>,
    pub username: Option<String>,
}

/// The text of an optional string, or `fallback` where it is absent.
pub open spec fn text_or(s: Option<String>, fallback: Seq<char>) -> Seq<char> {
    match s {
        Some(v) => v@,
        None => fallback,
    }
}

fn unwrap_text_or(s: Option<String>, fallback: &str) -> (r: String)
    ensures
        r@ == text_or(s, fallback@),
{
    match s {
        Some(v) => v,
        None => String::from_str(fallback),
    }
}

impl ArgonResponse {
    /// Not even weakly valid: invalid, with the cause or "unknown". Weakly but
    /// not fully valid: weak, with the name or "<unknown>". Otherwise strong.
    pub fn verdict(self) -> (r: Verdict)
        ensures
            !self.valid_weak ==> (r matches Verdict::Invalid(c) && c@ == text_or(self.cause, "unknown"@)),
            self.valid_weak && !self.valid ==> (r matches Verdict::Weak(u) && u@ == text_or(
                self.username,
                "<unknown>"@,
            )),
            self.valid_weak && self.valid ==> r == Verdict::Strong,
    {
        if !self.valid_weak {
            Verdict::Invalid(unwrap_text_or(self.cause, "unknown"))
        } else if !self.valid {
            Verdict::Weak(unwrap_text_or(self.username, "<unknown>"))
        } else {
            Verdict::Strong
        }
    }
}

impl Verdict {
    /// The detail shown when a login is refused.
    pub fn failure_details(&self) -> (r: String)
        ensures
            self matches Verdict::Invalid(c) ==> r@ == "Invalid token: "@ + c@,
            self matches Verdict::Weak(u) ==> r@ == "Weak token for user: "@ + u@,
            self is Strong ==> r@ == "Authentication failed"@,
    {
        match self {
            Verdict::Invalid(c) => String::from_str("Invalid token: ").concat(c.as_str()),
            Verdict::Weak(u) => String::from_str("Weak token for user: ").concat(u.as_str()),
            Verdict::Strong => String::from_str("Authentication failed"),
        }
    }
}

/// A token with a leading "Bearer " removed.
pub open spec fn without_bearer(t: Seq<char>) -> Seq<char> {
    if t.len() >= 7 && t.take(7) == "Bearer "@ {
        t.skip(7)
    } else {
        t
    }
}

/// The token of an `Authorization` value, with or without the "Bearer " scheme.
pub fn strip_bearer(token: &str) -> (r: &str)
    ensures
        r@ == without_bearer(token@),
{
    let prefix = "Bearer ";
    proof {
        reveal_strlit("Bearer ");
    }
    let n = token.unicode_len();
    if n < 7 {
        return token;
    }
    let mut i: usize = 0;
    while i < 7
        invariant
            n == token@.len(),
            n >= 7,
            prefix@ == "Bearer "@,
            prefix@.len() == 7,
            i <= 7,
            forall|k: int| 0 <= k < i ==> token@[k] == prefix@[k],
        decreases 7 - i,
    {
        if token.get_char(i) != prefix.get_char(i) {
            assert(token@.take(7)[i as int] != "Bearer "@[i as int]);
            return token;
        }
        i = i + 1;
    }
    assert(token@.take(7) =~= "Bearer "@);
    token.substring_char(7, n)
}

/// A login with a game account and its proof.
#[derive(Debug, Clone)]
pub struct LoginPayload {
    pub account_id: i64,
    pub user_id: i64,
    pub username: String,
    pub argon_token: String,
    pub discord_token: Option<String>,
}

/// The code that Discord hands back after authorization.
#[derive(Debug, Clone)]
pub struct DiscordOAuthPayload {
    pub code: String,
}

/// A request to link a Discord account through a link token.
#[derive(Debug, Clone)]
pub struct LinkPayload {
    pub token: String,
}

} // verus!
