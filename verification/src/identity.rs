//! The signed-in user, as the proxy's `/api/userinfo` route reports it,
//! and the URLs the app uses to fetch it or to send the browser to log in.
//!
//! A fetch of that route follows the proxy's login redirect silently and
//! comes back with the login page, so "the response parsed as `UserInfo`"
//! is what tells an authenticated session, not "the request succeeded".

use vstd::prelude::*;

verus! {

/// Standard OIDC userinfo claims. Only `sub` is always present; the others
/// depend on the requested scope.
#[derive(Clone, Debug, Default, PartialEq)]
pub struct UserInfo {
    pub sub: String,
    pub name: Option<String>,
    pub preferred_username: Option<String>,
    pub email: Option<String>,
}

/// The name shown for a user: the `name` claim, else the preferred
/// username, else the subject identifier.
pub open spec fn display_name_of(name: Option<Seq<char>>, preferred: Option<Seq<char>>, sub: Seq<char>) -> Seq<char> {
    match name {
        Some(n) => n,
        None => match preferred {
            Some(p) => p,
            None => sub,
        },
    }
}

impl UserInfo {
    /// The name shown for this user in the masthead.
    pub fn display_name(&self) -> (r: String)
        ensures
            r@ == display_name_of(self.name.deep_view(), self.preferred_username.deep_view(), self.sub@),
    {
        match &self.name {
            Some(n) => n.clone(),
            None => match &self.preferred_username {
                Some(p) => p.clone(),
                None => self.sub.clone(),
            },
        }
    }
}

/// Where `/api/userinfo` is fetched from: the page's origin followed by
/// `/api/userinfo`. The route is origin-rooted: it lives at the site root,
/// outside the app's own path prefix, so it is never built from the base
/// URI. Without an origin the fetch cannot be made.
pub fn userinfo_url(origin: Option<String>) -> (r: Result<String, String>)
    ensures
        match origin {
            Some(o) => r matches Ok(u) && u@ == o@ + "/api/userinfo"@,
            None => r matches Err(e) && e@ == "could not determine the page origin"@,
        },
{
    match origin {
        Some(o) => Ok(o.concat("/api/userinfo")),
        None => Err(String::from_str("could not determine the page origin")),
    }
}

/// One character as it stands in a query value: `:` and `/` escaped,
/// everything else as it is.
pub open spec fn query_char(c: char) -> Seq<char> {
    if c == ':' {
        seq!['%', '3', 'A']
    } else if c == '/' {
        seq!['%', '2', 'F']
    } else {
        seq![c]
    }
}

/// `s` with each `:` written `%3A` and each `/` written `%2F`.
pub open spec fn query_encoded(s: Seq<char>) -> Seq<char>
    decreases s.len(),
{
    if s.len() == 0 {
        Seq::empty()
    } else {
        query_encoded(s.drop_last()) + query_char(s.last())
    }
}

/// Escapes a base URI for use as a query-parameter value. A base URI
/// holds only a scheme, a host and a path, so `:` and `/` are the only
/// characters that would break out of the `return_to=` value.
pub fn urlencoding_encode(value: &str) -> (r: String)
    ensures
        r@ == query_encoded(value@),
{
    let n = value.unicode_len();
    let mut out = String::new();
    let mut i: usize = 0;
    while i < n
        invariant
            n == value@.len(),
            i <= n,
            out@ == query_encoded(value@.take(i as int)),
        decreases n - i,
    {
        let c = value.get_char(i);
        proof {
            assert(value@.take(i + 1).drop_last() =~= value@.take(i as int));
            assert(value@.take(i + 1).last() == c);
        }
        if c == ':' {
            let esc = "%3A";
            proof {
                reveal_strlit("%3A");
            }
            out.append(esc);
        } else if c == '/' {
            let esc = "%2F";
            proof {
                reveal_strlit("%2F");
            }
            out.append(esc);
        } else {
            out.append(value.substring_char(i, i + 1));
        }
        proof {
            assert(out@ =~= query_encoded(value@.take(i + 1)));
        }
        i = i + 1;
    }
    proof {
        assert(value@.take(n as int) =~= value@);
    }
    out
}

/// An escaped value holds neither `:` nor `/`, so it cannot end the query
/// value or start a new path segment.
pub proof fn lemma_query_encoded_has_no_separators(s: Seq<char>)
    ensures
        !query_encoded(s).contains(':'),
        !query_encoded(s).contains('/'),
    decreases s.len(),
{
    if s.len() > 0 {
        lemma_query_encoded_has_no_separators(s.drop_last());
        let front = query_encoded(s.drop_last());
        let piece = query_char(s.last());
        let all = query_encoded(s);
        assert(all == front + piece);
        assert forall|k: int| 0 <= k < all.len() implies all[k] != ':' && all[k] != '/' by {
            if k < front.len() {
                assert(all[k] == front[k]);
                assert(!front.contains(front[k]) ==> false);
            } else {
                assert(all[k] == piece[k - front.len()]);
            }
        }
    }
}

/// Percent-decoding of an escaped value, read from the end: a trailing
/// `%3A` stands for `:`, a trailing `%2F` for `/`, any other last
/// character for itself.
pub open spec fn query_decoded(s: Seq<char>) -> Seq<char>
    decreases s.len(),
{
    if s.len() == 0 {
        Seq::empty()
    } else if s.len() >= 3 && s.subrange(s.len() - 3, s.len() as int) == seq!['%', '3', 'A'] {
        query_decoded(s.subrange(0, s.len() - 3)).push(':')
    } else if s.len() >= 3 && s.subrange(s.len() - 3, s.len() as int) == seq!['%', '2', 'F'] {
        query_decoded(s.subrange(0, s.len() - 3)).push('/')
    } else {
        query_decoded(s.drop_last()).push(s.last())
    }
}

proof fn lemma_query_encoded_tail(s: Seq<char>)
    requires
        !s.contains('%'),
    ensures
        query_encoded(s).len() > 0 ==> query_encoded(s).last() != '%',
        query_encoded(s).len() >= 2 ==> query_encoded(s)[query_encoded(s).len() - 2] != '%',
    decreases s.len(),
{
    if s.len() > 0 {
        let front = s.drop_last();
        assert(!front.contains('%')) by {
            if front.contains('%') {
                let k = choose|k: int| 0 <= k < front.len() && front[k] == '%';
                assert(s[k] == '%');
            }
        }
        lemma_query_encoded_tail(front);
        assert(s[s.len() - 1] != '%');
        let e = query_encoded(s);
        let ef = query_encoded(front);
        let piece = query_char(s.last());
        assert(e == ef + piece);
        if piece.len() == 1 && ef.len() > 0 {
            assert(e[e.len() - 2] == ef.last());
        }
    }
}

/// Decoding an escaped value gives the value back, for every value without
/// `%` in it (a base URI, which holds a scheme, a host and a path).
pub proof fn lemma_query_decoded_restores(s: Seq<char>)
    requires
        !s.contains('%'),
    ensures
        query_decoded(query_encoded(s)) == s,
    decreases s.len(),
{
    if s.len() > 0 {
        let front = s.drop_last();
        let c = s.last();
        assert(!front.contains('%')) by {
            if front.contains('%') {
                let k = choose|k: int| 0 <= k < front.len() && front[k] == '%';
                assert(s[k] == '%');
            }
        }
        assert(s[s.len() - 1] != '%');
        lemma_query_decoded_restores(front);
        lemma_query_encoded_tail(front);
        let ef = query_encoded(front);
        let e = query_encoded(s);
        assert(e == ef + query_char(c));
        if c == ':' {
            assert(e.subrange(e.len() - 3, e.len() as int) =~= seq!['%', '3', 'A']);
            assert(e.subrange(0, e.len() - 3) =~= ef);
        } else if c == '/' {
            assert(e.subrange(e.len() - 3, e.len() as int) =~= seq!['%', '2', 'F']);
            assert(e.subrange(0, e.len() - 3) =~= ef);
        } else {
            assert(e =~= ef.push(c));
            if e.len() >= 3 {
                assert(e.subrange(e.len() - 3, e.len() as int)[0] == ef[ef.len() - 2]);
                assert(e.subrange(e.len() - 3, e.len() as int) != seq!['%', '3', 'A']);
                assert(e.subrange(e.len() - 3, e.len() as int) != seq!['%', '2', 'F']);
            }
            assert(e.drop_last() =~= ef);
        }
        assert(front.push(c) =~= s);
    } else {
        assert(query_encoded(s) =~= Seq::<char>::empty());
    }
}

/// The page that makes the browser log in: a top-level navigation to the
/// origin-rooted `/api/userinfo`, with the app's base URI as `return_to` so
/// the proxy sends the user back to the app afterwards. Without the origin
/// or the base URI there is nowhere to go.
pub fn login_redirect_target(origin: Option<String>, base: Option<String>) -> (r: Option<String>)
    ensures
        match (origin, base) {
            (Some(o), Some(b)) => r matches Some(t) && t@ == o@ + "/api/userinfo?return_to="@
                + query_encoded(b@),
            _ => r is None,
        },
{
    match (origin, base) {
        (Some(o), Some(b)) => {
            let encoded = urlencoding_encode(b.as_str());
            let target = o.concat("/api/userinfo?return_to=").concat(encoded.as_str());
            Some(target)
        },
        _ => None,
    }
}

} // verus!
