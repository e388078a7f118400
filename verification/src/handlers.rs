use vstd::prelude::*;
use crate::helpers::uuid::{Uuid, uuid_parse};
use crate::responses::Status;
use crate::text::{chars_of, string_from_chars, has_prefix, split_on, lemma_split_prefix, starts_with, skip_chars, opt_str_text};

verus! {

/// The query parameter that may carry an API token.
pub open spec fn auth_param_prefix() -> Seq<char> {
    seq!['a', 'u', 't', 'h', '=']
}

/// The value of the first `auth=` piece among the pieces of a query.
pub open spec fn first_auth_param(pieces: Seq<Seq<char>>) -> Option<Seq<char>>
    decreases pieces.len(),
{
    if pieces.len() == 0 {
        None
    } else if has_prefix(pieces[0], auth_param_prefix()) {
        Some(pieces[0].skip(5))
    } else {
        first_auth_param(pieces.drop_first())
    }
}

/// The token a request presents: the first `Authorization` header when
/// there is one, otherwise the value of the first `auth=` parameter of the
/// query string.
pub open spec fn presented_token(authorization: Option<Seq<char>>, query: Option<Seq<char>>) -> Option<Seq<char>> {
    match authorization {
        Some(t) => Some(t),
        None => match query {
            Some(q) => first_auth_param(split_on(q, '&')),
            None => None,
        },
    }
}

proof fn lemma_first_auth_param_append(a: Seq<Seq<char>>, b: Seq<Seq<char>>)
    ensures
        first_auth_param(a + b) == match first_auth_param(a) {
            Some(t) => Some(t),
            None => first_auth_param(b),
        },
    decreases a.len(),
{
    if a.len() > 0 {
        assert((a + b).drop_first() =~= a.drop_first() + b);
        lemma_first_auth_param_append(a.drop_first(), b);
    } else {
        assert(a + b =~= b);
    }
}

/// Finds the value of the first `auth=` parameter in a query string.
pub fn auth_query_param(query: &str) -> (r: Option<String>)
    ensures
        match r {
            Some(s) => first_auth_param(split_on(query@, '&')) == Some(s@),
            None => first_auth_param(split_on(query@, '&')) is None,
        },
{
    let q = chars_of(query);
    let prefix: Vec<char> = vec!['a', 'u', 't', 'h', '='];
    assert(prefix@ =~= auth_param_prefix());
    let ghost mut done: Seq<Seq<char>> = Seq::empty();
    let mut cur: Vec<char> = Vec::new();
    let mut i: usize = 0;
    while i < q.len()
        invariant
            q@ == query@,
            prefix@ == auth_param_prefix(),
            0 <= i <= q@.len(),
            split_on(q@.take(i as int), '&') == done.push(cur@),
            first_auth_param(done) is None,
        decreases q.len() - i,
    {
        let c = q[i];
        assert(q@.take(i + 1).drop_last() =~= q@.take(i as int));
        if c == '&' {
            if starts_with(&cur, &prefix) {
                let v = skip_chars(&cur, 5);
                proof {
                    let whole = split_on(q@, '&');
                    let upto = split_on(q@.take(i + 1), '&');
                    assert(upto =~= done.push(cur@).push(Seq::empty()));
                    lemma_split_prefix(q@, '&', i + 1, q@.len() as int);
                    assert(q@.take(q@.len() as int) =~= q@);
                    let head = done.push(cur@);
                    assert(whole.take(head.len() as int) =~= head);
                    assert(whole =~= head + whole.skip(head.len() as int));
                    lemma_first_auth_param_append(head, whole.skip(head.len() as int));
                    lemma_first_auth_param_append(done, seq![cur@]);
                    assert(done + seq![cur@] =~= head);
                    assert(first_auth_param(seq![cur@]) == Some(cur@.skip(5)));
                }
                return Some(string_from_chars(&v));
            }
            proof {
                lemma_first_auth_param_append(done, seq![cur@]);
                assert(seq![cur@].drop_first() =~= Seq::<Seq<char>>::empty());
                assert(seq![cur@][0] == cur@);
                assert(first_auth_param(Seq::<Seq<char>>::empty()) is None);
                assert(!has_prefix(cur@, auth_param_prefix()));
                assert(first_auth_param(seq![cur@]) is None);
                assert(done + seq![cur@] =~= done.push(cur@));
                done = done.push(cur@);
            }
            cur = Vec::new();
        } else {
            let ghost old_cur = cur@;
            cur.push(c);
            proof {
                assert(done.push(old_cur).update(done.len() as int, cur@) =~= done.push(cur@));
            }
        }
        i = i + 1;
    }
    assert(q@.take(q@.len() as int) =~= q@);
    proof {
        lemma_first_auth_param_append(done, seq![cur@]);
        assert(done + seq![cur@] =~= done.push(cur@));
        assert(seq![cur@].drop_first() =~= Seq::<Seq<char>>::empty());
        assert(seq![cur@][0] == cur@);
        assert(first_auth_param(Seq::<Seq<char>>::empty()) is None);
    }
    if starts_with(&cur, &prefix) {
        let v = skip_chars(&cur, 5);
        Some(string_from_chars(&v))
    } else {
        None
    }
}

/// What a request's credentials come to before the token store is asked.
#[derive(Debug, Clone, Copy, PartialEq, Eq, Structural)]
pub enum TokenCheck {
    /// No token presented: the request is unauthorized.
    Missing,
    /// The token is not an identifier: the request is bad.
    Malformed,
    /// Look this token up in the store.
    Lookup(Uuid),
}

/// How a request guarded by an API token is answered.
#[derive(Debug, Clone, Copy, PartialEq, Eq, Structural)]
pub enum TokenOutcome {
    Success(Uuid),
    Failure(Status),
}

/// Reads the API token of a request from its first `Authorization` header
/// or, failing that, from its `auth=` query parameter, and parses it.
pub fn check_api_token(authorization: Option<&str>, query: Option<&str>) -> (r: TokenCheck)
    ensures
        match presented_token(opt_str_text(authorization), opt_str_text(query)) {
            None => r == TokenCheck::Missing,
            Some(t) => match uuid_parse(t) {
                Some(v) => r == TokenCheck::Lookup(Uuid { value: v }),
                None => r == TokenCheck::Malformed,
            },
        },
{
    let token: String = match authorization {
        Some(t) => t.to_owned(),
        None => match query {
            Some(q) => match auth_query_param(q) {
                Some(t) => t,
                None => return TokenCheck::Missing,
            },
            None => return TokenCheck::Missing,
        },
    };
    match Uuid::parse_str(token.as_str()) {
        Ok(id) => TokenCheck::Lookup(id),
        Err(_) => TokenCheck::Malformed,
    }
}

/// The answer once the store has been asked whether the token exists:
/// a known token succeeds; an unknown or missing one is unauthorized; a
/// malformed one is a bad request.
pub fn token_outcome(check: TokenCheck, token_exists: bool) -> (r: TokenOutcome)
    ensures
        r == match check {
            TokenCheck::Missing => TokenOutcome::Failure(Status::Unauthorized),
            TokenCheck::Malformed => TokenOutcome::Failure(Status::BadRequest),
            TokenCheck::Lookup(id) => if token_exists {
                TokenOutcome::Success(id)
            } else {
                TokenOutcome::Failure(Status::Unauthorized)
            },
        },
{
    match check {
        TokenCheck::Missing => TokenOutcome::Failure(Status::Unauthorized),
        TokenCheck::Malformed => TokenOutcome::Failure(Status::BadRequest),
        TokenCheck::Lookup(id) => if token_exists {
            TokenOutcome::Success(id)
        } else {
            TokenOutcome::Failure(Status::Unauthorized)
        },
    }
}

/// A presented `Authorization` header decides the token whatever the query
/// holds; without one, the query's first `auth=` parameter does.
pub proof fn lemma_header_takes_precedence(header: Seq<char>, query: Option<Seq<char>>)
    ensures
        presented_token(Some(header), query) == Some(header),
        presented_token(None, query) == match query {
            Some(q) => first_auth_param(split_on(q, '&')),
            None => None,
        },
{
}

/// An `auth=` parameter placed first in a query is the token, whatever follows.
pub proof fn lemma_first_auth_parameter_wins(token: Seq<char>, rest: Seq<char>)
    requires
        !token.contains('&'),
    ensures
        first_auth_param(split_on(auth_param_prefix() + token + seq!['&'] + rest, '&')) == Some(token),
{
    let first = auth_param_prefix() + token;
    let q = first + seq!['&'] + rest;
    lemma_split_single_piece(first);
    assert(q.take(first.len() as int + 1).drop_last() =~= first);
    assert(q.take(first.len() as int) =~= first);
    lemma_split_prefix(q, '&', first.len() as int + 1, q.len() as int);
    assert(q.take(q.len() as int) =~= q);
    assert(split_on(q.take(first.len() as int + 1), '&') =~= seq![first, Seq::empty()]);
    let whole = split_on(q, '&');
    assert(whole[0] == first);
    assert(has_prefix(first, auth_param_prefix())) by {
        assert(first.take(5) =~= auth_param_prefix());
    }
    assert(first.skip(5) =~= token);
}

proof fn lemma_split_single_piece(s: Seq<char>)
    requires
        !s.contains('&'),
    ensures
        split_on(s, '&') == seq![s],
    decreases s.len(),
{
    if s.len() > 0 {
        assert(!s.drop_last().contains('&')) by {
            if s.drop_last().contains('&') {
                let k = choose|k: int| 0 <= k < s.drop_last().len() && s.drop_last()[k] == '&';
                assert(s[k] == '&');
            }
        }
        lemma_split_single_piece(s.drop_last());
        assert(s[s.len() - 1] != '&');
        assert(s.drop_last().push(s.last()) =~= s);
    } else {
        assert(s =~= Seq::<char>::empty());
    }
}

} // verus!
