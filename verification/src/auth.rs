//! The authenticated session and the rights that hiding requires.

use vstd::prelude::*;

use crate::text::{has_text, push_str, str_eq, string_of, vec_has_str};

verus! {

/// A logged-in bot session.
#[derive(Clone, Debug)]
pub struct AuthState {
    pub username: String,
    pub csrf_token: String,
    /// The user rights of the session (a set: order and repeats carry no meaning).
    pub rights: Vec<String>,
}

/// The rights that bot-marked revision deletion needs, in reporting order.
pub open spec fn required_rights() -> Seq<Seq<char>> {
    seq!["bot"@, "deleterevision"@, "deletelogentry"@]
}

impl AuthState {
    /// Whether the session holds the right `r`.
    pub open spec fn holds(&self, r: Seq<char>) -> bool {
        has_text(self.rights@, r)
    }

    /// The required rights that the session lacks, in reporting order.
    pub open spec fn spec_missing(&self) -> Seq<Seq<char>> {
        required_rights().filter(|r: Seq<char>| !self.holds(r))
    }

    /// The required rights that the session lacks, in reporting order.
    pub fn missing_required_rights(&self) -> (r: Vec<&'static str>)
        ensures
            r@.map_values(|s: &str| s@) == self.spec_missing(),
    {
        let mut out: Vec<&'static str> = Vec::new();
        if !vec_has_str(&self.rights, "bot") {
            out.push("bot");
        }
        if !vec_has_str(&self.rights, "deleterevision") {
            out.push("deleterevision");
        }
        if !vec_has_str(&self.rights, "deletelogentry") {
            out.push("deletelogentry");
        }
        proof {
            let req = required_rights();
            let pred = |r: Seq<char>| !self.holds(r);
            reveal_with_fuel(Seq::filter, 4);
            assert(req.drop_last().drop_last().drop_last() =~= Seq::<Seq<char>>::empty());
            assert(req.drop_last().drop_last() =~= seq!["bot"@]);
            assert(req.drop_last() =~= seq!["bot"@, "deleterevision"@]);
            assert(out@.map_values(|s: &str| s@) =~= req.filter(pred));
        }
        out
    }

    /// Whether the session holds every required right.
    pub fn has_required_rights(&self) -> (r: bool)
        ensures
            r == (self.spec_missing().len() == 0),
            r == (self.holds("bot"@) && self.holds("deleterevision"@) && self.holds(
                "deletelogentry"@,
            )),
    {
        let missing = self.missing_required_rights();
        proof {
            let req = required_rights();
            let pred = |r: Seq<char>| !self.holds(r);
            reveal_with_fuel(Seq::filter, 4);
            assert(req.drop_last().drop_last().drop_last() =~= Seq::<Seq<char>>::empty());
            assert(req.drop_last().drop_last() =~= seq!["bot"@]);
            assert(req.drop_last() =~= seq!["bot"@, "deleterevision"@]);
            assert(missing@.map_values(|s: &str| s@).len() == missing@.len());
        }
        missing.len() == 0
    }

    /// Whether the session is bot-flagged.
    pub fn has_bot_right(&self) -> (r: bool)
        ensures
            r == self.holds("bot"@),
    {
        vec_has_str(&self.rights, "bot")
    }

    /// Whether the session may use the higher API batch limits.
    pub fn has_high_limits(&self) -> (r: bool)
        ensures
            r == self.holds("apihighlimits"@),
    {
        vec_has_str(&self.rights, "apihighlimits")
    }
}


/// The names joined with ", ".
pub open spec fn comma_joined(names: Seq<Seq<char>>) -> Seq<char>
    decreases names.len(),
{
    if names.len() == 0 {
        Seq::empty()
    } else if names.len() == 1 {
        names[0]
    } else {
        comma_joined(names.drop_last()) + ", "@ + names.last()
    }
}

/// The session a login gave, once its user information is read: refused
/// when it lacks a required right, naming the rights it lacks.
pub fn authenticated_session(username: String, csrf_token: String, rights: Vec<String>) -> (r: Result<
    AuthState,
    String,
>)
    ensures
        ({
            let state = AuthState { username, csrf_token, rights };
            match r {
                Ok(s) => s == state && state.spec_missing().len() == 0,
                Err(e) => state.spec_missing().len() > 0 && e@
                    == "Authenticated session lacks required rights for bot-marked revisiondelete actions: "@
                    + comma_joined(state.spec_missing()),
            }
        }),
{
    let state = AuthState { username, csrf_token, rights };
    let missing = state.missing_required_rights();
    if missing.len() == 0 {
        proof {
            assert(missing@.map_values(|s: &str| s@).len() == 0);
        }
        return Ok(state);
    }
    let ghost names = missing@.map_values(|s: &str| s@);
    let mut out: Vec<char> = Vec::new();
    push_str(&mut out, "Authenticated session lacks required rights for bot-marked revisiondelete actions: ");
    let ghost lead = out@;
    let mut i: usize = 0;
    while i < missing.len()
        invariant
            i <= missing.len(),
            names == missing@.map_values(|s: &str| s@),
            out@ == lead + comma_joined(names.subrange(0, i as int)),
        decreases missing.len() - i,
    {
        proof {
            let s = names.subrange(0, i + 1);
            assert(s.drop_last() =~= names.subrange(0, i as int));
            assert(s.last() == missing@[i as int]@);
        }
        if i > 0 {
            push_str(&mut out, ", ");
        }
        push_str(&mut out, missing[i]);
        proof {
            assert(out@ =~= lead + comma_joined(names.subrange(0, i + 1)));
        }
        i = i + 1;
    }
    assert(names.subrange(0, names.len() as int) =~= names);
    Err(string_of(&out))
}

/// What a login request's `result` means: only "Success" logs in.
pub fn login_outcome(result: Option<&str>) -> (r: Result<(), String>)
    ensures
        match result {
            Some(v) if v@ == "Success"@ => r is Ok,
            Some(v) => r matches Err(e) && e@ == "MediaWiki login failed with result "@ + v@,
            None => r matches Err(e) && e@ == "MediaWiki login failed with result "@,
        },
{
    match result {
        Some(v) => if str_eq(v, "Success") {
            Ok(())
        } else {
            let mut out: Vec<char> = Vec::new();
            push_str(&mut out, "MediaWiki login failed with result ");
            push_str(&mut out, v);
            Err(string_of(&out))
        },
        None => Err(String::from_str("MediaWiki login failed with result ")),
    }
}

} // verus!
