use vstd::prelude::*;
use crate::util::get_hash;
use crate::util::is_hex_text;
use crate::util::now_nanos;
use crate::util::same_text;

verus! {

/// The length of a recovery token.
pub const TOKEN_LENGTH: usize = 40;

/// The nanoseconds in a second.
pub const NANOS_PER_SECOND: i128 = 1_000_000_000;

/// A recovery token as this library draws them: forty hexadecimal symbols.
pub open spec fn is_recovery_token(s: Seq<char>) -> bool {
    s.len() == TOKEN_LENGTH && is_hex_text(s)
}

/// An outstanding request as a value: the token, the user that it was given
/// to, and the moment, in nanoseconds since the Unix epoch, after which it no
/// longer counts.
pub struct RequestData {
    pub token: Seq<char>,
    pub user_id: Seq<char>,
    pub expires_at: int,
}

/// The tokens of the requests, in the requests' order.
pub open spec fn tokens(s: Seq<RequestData>) -> Seq<Seq<char>> {
    Seq::new(s.len(), |i: int| s[i].token)
}

/// The request under the token `token`, if there is one.
pub open spec fn request_of(s: Seq<RequestData>, token: Seq<char>) -> Option<RequestData> {
    match tokens(s).index_of_first(token) {
        Some(i) => Some(s[i]),
        None => None,
    }
}

/// The request has expired at the moment `now`.
pub open spec fn is_expired(e: RequestData, now: int) -> bool {
    now > e.expires_at
}

/// The requests without the one under `token`.
pub open spec fn without_token(s: Seq<RequestData>, token: Seq<char>) -> Seq<RequestData> {
    match tokens(s).index_of_first(token) {
        Some(i) => s.remove(i),
        None => s,
    }
}

/// The requests with `e` among them: in the place of the request under the
/// same token where there is one, else behind the others.
pub open spec fn with_request(s: Seq<RequestData>, e: RequestData) -> Seq<RequestData> {
    match tokens(s).index_of_first(e.token) {
        Some(i) => s.update(i, e),
        None => s.push(e),
    }
}

/// Whether the token is good at the moment `now`: it is there and has not
/// expired.
pub open spec fn is_good(s: Seq<RequestData>, token: Seq<char>, now: int) -> bool {
    match request_of(s, token) {
        Some(e) => !is_expired(e, now),
        None => false,
    }
}

/// The requests but those of the user `user_id`.
pub open spec fn without_user(s: Seq<RequestData>, user_id: Seq<char>) -> Seq<RequestData> {
    s.filter(|e: RequestData| e.user_id != user_id)
}

/// The requests that have not expired at the moment `now`.
pub open spec fn unexpired(s: Seq<RequestData>, now: int) -> Seq<RequestData> {
    s.filter(|e: RequestData| !is_expired(e, now))
}

struct Request {
    token: String,
    user_id: String,
    expires_at: i128,
}

impl View for Request {
    type V = RequestData;

    closed spec fn view(&self) -> RequestData {
        RequestData {
            token: self.token@,
            user_id: self.user_id@,
            expires_at: self.expires_at as int,
        }
    }
}

impl Request {
    fn duplicate(&self) -> (r: Request)
        ensures
            r@ == self@,
    {
        Request {
            token: self.token.clone(),
            user_id: self.user_id.clone(),
            expires_at: self.expires_at,
        }
    }
}

spec fn requests_of(v: Seq<Request>) -> Seq<RequestData> {
    Seq::new(v.len(), |i: int| v[i]@)
}

/// What is left of requests with distinct tokens after some were taken out
/// has distinct tokens.
proof fn lemma_filter_keeps_distinct(s: Seq<RequestData>, keep: spec_fn(RequestData) -> bool)
    requires
        tokens(s).no_duplicates(),
    ensures
        tokens(s.filter(keep)).no_duplicates(),
        forall|t: Seq<char>| tokens(s.filter(keep)).contains(t) ==> tokens(s).contains(t),
    decreases s.len(),
{
    reveal(Seq::filter);
    if s.len() > 0 {
        let rest = s.drop_last();
        assert(tokens(rest) =~= tokens(s).drop_last());
        lemma_filter_keeps_distinct(rest, keep);
        let f = rest.filter(keep);
        if keep(s.last()) {
            assert(s.filter(keep) =~= f.push(s.last()));
            assert(tokens(f.push(s.last())) =~= tokens(f).push(s.last().token));
            assert(!tokens(rest).contains(s.last().token)) by {
                if tokens(rest).contains(s.last().token) {
                    let j = choose|j: int| 0 <= j < rest.len() && tokens(rest)[j] == s.last().token;
                    assert(tokens(s)[j] == tokens(s)[s.len() - 1]);
                }
            }
            assert forall|t: Seq<char>| tokens(s.filter(keep)).contains(t) implies tokens(
                s,
            ).contains(t) by {
                let k = choose|k: int|
                    0 <= k < tokens(s.filter(keep)).len() && tokens(s.filter(keep))[k] == t;
                if k < f.len() {
                    assert(tokens(f)[k] == t);
                    assert(tokens(rest).contains(t));
                    let j = choose|j: int| 0 <= j < rest.len() && tokens(rest)[j] == t;
                    assert(tokens(s)[j] == t);
                } else {
                    assert(tokens(s)[s.len() - 1] == t);
                }
            }
        } else {
            assert(s.filter(keep) =~= f);
            assert forall|t: Seq<char>| tokens(s.filter(keep)).contains(t) implies tokens(
                s,
            ).contains(t) by {
                assert(tokens(rest).contains(t));
                let j = choose|j: int| 0 <= j < rest.len() && tokens(rest)[j] == t;
                assert(tokens(s)[j] == t);
            }
        }
    } else {
        assert(tokens(s.filter(keep)) =~= Seq::<Seq<char>>::empty());
    }
}

/// The recovery tokens that are outstanding: for each token the user that
/// asked for it and the moment at which it expires. No token stands twice.
pub struct HashMapTokenPasswordChange {
    token_map: Vec<Request>,
    duration_change_password: i64,
}

impl View for HashMapTokenPasswordChange {
    type V = Seq<RequestData>;

    closed spec fn view(&self) -> Seq<RequestData> {
        requests_of(self.token_map@)
    }
}

impl HashMapTokenPasswordChange {
    #[verifier::type_invariant]
    closed spec fn tokens_distinct(&self) -> bool {
        tokens(requests_of(self.token_map@)).no_duplicates()
    }

    /// The lifetime of a token in seconds, as a value.
    pub closed spec fn duration(&self) -> int {
        self.duration_change_password as int
    }

    /// The moment at which a token expires that is asked for at `now`.
    pub open spec fn expiry(&self, now: int) -> int {
        now + self.duration() * NANOS_PER_SECOND
    }

    /// No requests, and tokens that last `duration_change` seconds.
    pub fn new(duration_change: i64) -> (r: Self)
        ensures
            r@ == Seq::<RequestData>::empty(),
            r.duration() == duration_change,
    {
        Self { token_map: Vec::new(), duration_change_password: duration_change }
    }

    /// The lifetime of a token in seconds.
    pub fn get_duration_change_password(&self) -> (r: i64)
        ensures
            r == self.duration(),
    {
        self.duration_change_password
    }

    /// The number of outstanding requests.
    pub fn len(&self) -> (r: usize)
        ensures
            r == self@.len(),
    {
        self.token_map.len()
    }

    /// Does nothing; it is there for what it states: no token stands twice.
    pub fn tokens_are_distinct(&self)
        ensures
            tokens(self@).no_duplicates(),
    {
        proof {
            use_type_invariant(self);
        }
    }

    fn position_of(&self, token: &str) -> (r: Option<usize>)
        ensures
            match r {
                Some(i) => tokens(self@).index_of_first(token@) == Some(i as int) && i
                    < self@.len() && self@[i as int].token == token@,
                None => tokens(self@).index_of_first(token@) is None,
            },
    {
        let n = self.token_map.len();
        let mut i: usize = 0;
        while i < n
            invariant
                n == self.token_map@.len(),
                i <= n,
                forall|j: int| 0 <= j < i ==> tokens(self@)[j] != token@,
            decreases n - i,
        {
            if same_text(self.token_map[i].token.as_str(), token) {
                proof {
                    assert(tokens(self@)[i as int] == token@);
                    tokens(self@).index_of_first_ensures(token@);
                }
                return Some(i);
            }
            i += 1;
        }
        proof {
            tokens(self@).index_of_first_ensures(token@);
        }
        None
    }

    /// The user that the token `token` was given to. Whether the token has
    /// expired is not looked at, and nothing changes.
    pub fn get_user_id_from_token(&self, token: &str) -> (r: Option<String>)
        ensures
            match request_of(self@, token@) {
                Some(e) => r matches Some(id) && id@ == e.user_id,
                None => r is None,
            },
    {
        match self.position_of(token) {
            Some(i) => Some(self.token_map[i].user_id.clone()),
            None => None,
        }
    }

    /// Records that `token` was given to the user `user_id` at the moment
    /// `now`. A request under the same token is replaced.
    pub fn insert_request(&mut self, token: &str, user_id: &str, now: i128)
        requires
            i128::MIN <= old(self).expiry(now as int) <= i128::MAX,
        ensures
            final(self).duration() == old(self).duration(),
            final(self)@ == with_request(
                old(self)@,
                RequestData {
                    token: token@,
                    user_id: user_id@,
                    expires_at: old(self).expiry(now as int),
                },
            ),
    {
        proof {
            use_type_invariant(&*self);
        }
        let ghost before = self@;
        let length: i128 = self.duration_change_password as i128;
        let request = Request {
            token: token.to_owned(),
            user_id: user_id.to_owned(),
            expires_at: now + length * NANOS_PER_SECOND,
        };
        let place = self.position_of(token);
        let mut requests: Vec<Request> = Vec::new();
        core::mem::swap(&mut requests, &mut self.token_map);
        match place {
            Some(i) => {
                requests.set(i, request);
                proof {
                    assert(requests_of(requests@) =~= before.update(i as int, request@));
                    assert(tokens(before.update(i as int, request@)) =~= tokens(before));
                }
            },
            None => {
                requests.push(request);
                proof {
                    tokens(before).index_of_first_ensures(token@);
                    assert(requests_of(requests@) =~= before.push(request@));
                    assert(tokens(before.push(request@)) =~= tokens(before).push(token@));
                }
            },
        }
        self.token_map = requests;
    }

    /// Gives the user `user_id` a fresh random token that lasts from now on
    /// for the configured time, and returns it. A user may hold several
    /// tokens at once.
    pub fn insert_new_user_request(&mut self, user_id: &str) -> (r: Option<String>)
        ensures
            final(self).duration() == old(self).duration(),
            r matches Some(t) && is_recovery_token(t@) && exists|now: int|
                0 <= now && final(self)@ == with_request(
                    old(self)@,
                    RequestData {
                        token: t@,
                        user_id: user_id@,
                        expires_at: #[trigger] old(self).expiry(now),
                    },
                ),
    {
        let token = get_hash(TOKEN_LENGTH);
        let now = now_nanos();
        self.insert_request(token.as_str(), user_id, now);
        Some(token)
    }

    fn remove_at(&mut self, i: usize)
        requires
            i < old(self)@.len(),
        ensures
            final(self).duration() == old(self).duration(),
            final(self)@ == old(self)@.remove(i as int),
    {
        proof {
            use_type_invariant(&*self);
        }
        let ghost before = self@;
        let mut requests: Vec<Request> = Vec::new();
        core::mem::swap(&mut requests, &mut self.token_map);
        requests.remove(i);
        proof {
            assert(requests_of(requests@) =~= before.remove(i as int));
            assert(tokens(before.remove(i as int)) =~= tokens(before).remove(i as int));
            crate::util::lemma_remove_from_distinct(tokens(before), i as int);
        }
        self.token_map = requests;
    }

    /// Tells whether the token is good at the moment `now`. A token that has
    /// expired is forgotten on the way; otherwise nothing changes.
    pub fn is_token_okay_at(&mut self, token: &str, now: i128) -> (r: bool)
        ensures
            final(self).duration() == old(self).duration(),
            r == is_good(old(self)@, token@, now as int),
            final(self)@ == if r {
                old(self)@
            } else {
                without_token(old(self)@, token@)
            },
    {
        match self.position_of(token) {
            Some(i) => {
                if now > self.token_map[i].expires_at {
                    self.remove_at(i);
                    return false;
                }
                true
            },
            None => false,
        }
    }

    /// Tells whether the token is good now. A token that has expired is
    /// forgotten on the way; otherwise nothing changes.
    pub fn is_token_okay(&mut self, token: &str) -> (r: bool)
        ensures
            final(self).duration() == old(self).duration(),
            exists|now: int| 0 <= now && r == #[trigger] is_good(old(self)@, token@, now),
            final(self)@ == if r {
                old(self)@
            } else {
                without_token(old(self)@, token@)
            },
    {
        let now = now_nanos();
        self.is_token_okay_at(token, now)
    }

    /// Uses the token up at the moment `now`: tells whether it was good, and
    /// forgets it either way.
    pub fn delete_token_at(&mut self, token: &str, now: i128) -> (r: bool)
        ensures
            final(self).duration() == old(self).duration(),
            r == is_good(old(self)@, token@, now as int),
            final(self)@ == without_token(old(self)@, token@),
            request_of(final(self)@, token@) is None,
    {
        proof {
            use_type_invariant(&*self);
            tokens(self@).index_of_first_ensures(token@);
        }
        let ghost before = self@;
        let r = if self.is_token_okay_at(token, now) {
            match self.position_of(token) {
                Some(i) => {
                    self.remove_at(i);
                },
                None => {},
            }
            true
        } else {
            false
        };
        proof {
            tokens(self@).index_of_first_ensures(token@);
            if tokens(before).index_of_first(token@) is Some {
                let i = tokens(before).index_of_first(token@)->0;
                assert(tokens(before.remove(i)) =~= tokens(before).remove(i));
                crate::util::lemma_remove_from_distinct(tokens(before), i);
            }
        }
        r
    }

    /// Uses the token up now: tells whether it was good, and forgets it
    /// either way.
    pub fn delete_token(&mut self, token: &str) -> (r: bool)
        ensures
            final(self).duration() == old(self).duration(),
            exists|now: int| 0 <= now && r == #[trigger] is_good(old(self)@, token@, now),
            final(self)@ == without_token(old(self)@, token@),
            request_of(final(self)@, token@) is None,
    {
        let now = now_nanos();
        self.delete_token_at(token, now)
    }

    /// Forgets every token of the user `user_id`, expired or not.
    pub fn delete_tokens_from_id(&mut self, user_id: &str)
        ensures
            final(self).duration() == old(self).duration(),
            final(self)@ == without_user(old(self)@, user_id@),
    {
        proof {
            use_type_invariant(&*self);
        }
        let ghost before = self@;
        let ghost keep = |e: RequestData| e.user_id != user_id@;
        let mut requests: Vec<Request> = Vec::new();
        core::mem::swap(&mut requests, &mut self.token_map);
        let n = requests.len();
        let mut kept: Vec<Request> = Vec::new();
        let mut i: usize = 0;
        proof {
            reveal(Seq::filter);
        }
        while i < n
            invariant
                n == requests@.len(),
                i <= n,
                requests_of(requests@) == before,
                keep == |e: RequestData| e.user_id != user_id@,
                requests_of(kept@) == before.take(i as int).filter(keep),
            decreases n - i,
        {
            proof {
                assert(before.take(i + 1) =~= before.take(i as int).push(before[i as int]));
                before.take(i as int).lemma_filter_push(before[i as int], keep);
            }
            if !same_text(requests[i].user_id.as_str(), user_id) {
                let copy = requests[i].duplicate();
                kept.push(copy);
            }
            i += 1;
        }
        proof {
            assert(before.take(n as int) =~= before);
            lemma_filter_keeps_distinct(before, keep);
        }
        self.token_map = kept;
    }

    /// Forgets every token that has expired at the moment `now`.
    pub fn clean_tokens_up_at(&mut self, now: i128)
        ensures
            final(self).duration() == old(self).duration(),
            final(self)@ == unexpired(old(self)@, now as int),
    {
        proof {
            use_type_invariant(&*self);
        }
        let ghost before = self@;
        let ghost keep = |e: RequestData| !is_expired(e, now as int);
        let mut requests: Vec<Request> = Vec::new();
        core::mem::swap(&mut requests, &mut self.token_map);
        let n = requests.len();
        let mut kept: Vec<Request> = Vec::new();
        let mut i: usize = 0;
        proof {
            reveal(Seq::filter);
        }
        while i < n
            invariant
                n == requests@.len(),
                i <= n,
                requests_of(requests@) == before,
                keep == |e: RequestData| !is_expired(e, now as int),
                requests_of(kept@) == before.take(i as int).filter(keep),
            decreases n - i,
        {
            proof {
                assert(before.take(i + 1) =~= before.take(i as int).push(before[i as int]));
                before.take(i as int).lemma_filter_push(before[i as int], keep);
            }
            if !(now > requests[i].expires_at) {
                let copy = requests[i].duplicate();
                kept.push(copy);
            }
            i += 1;
        }
        proof {
            assert(before.take(n as int) =~= before);
            lemma_filter_keeps_distinct(before, keep);
        }
        self.token_map = kept;
    }

    /// Forgets every token that has expired by now.
    pub fn clean_tokens_up(&mut self)
        ensures
            final(self).duration() == old(self).duration(),
            exists|now: int| 0 <= now && final(self)@ == #[trigger] unexpired(old(self)@, now),
    {
        let now = now_nanos();
        self.clean_tokens_up_at(now);
    }
}

/// The life of a token: once the request `e` is recorded, its token is good
/// at every moment up to its expiry and resolves to its user; once the token
/// is used up, it is gone and good no more.
pub proof fn lemma_token_life(s: Seq<RequestData>, e: RequestData, now: int)
    requires
        tokens(s).no_duplicates(),
    ensures
        request_of(with_request(s, e), e.token) == Some(e),
        is_good(with_request(s, e), e.token, now) == (now <= e.expires_at),
        request_of(without_token(with_request(s, e), e.token), e.token) is None,
        !is_good(without_token(with_request(s, e), e.token), e.token, now),
{
    let held = with_request(s, e);
    tokens(s).index_of_first_ensures(e.token);
    match tokens(s).index_of_first(e.token) {
        Some(i) => {
            assert(tokens(held) =~= tokens(s));
        },
        None => {
            assert(tokens(held) =~= tokens(s).push(e.token));
            assert(tokens(held)[s.len() as int] == e.token);
        },
    }
    tokens(held).index_of_first_ensures(e.token);
    let k = tokens(held).index_of_first(e.token)->0;
    let rest = held.remove(k);
    assert(tokens(rest) =~= tokens(held).remove(k));
    crate::util::lemma_remove_from_distinct(tokens(held), k);
    tokens(rest).index_of_first_ensures(e.token);
}

} // verus!
