//! Session credential service: issues signed, self-contained session claims
//! and reads them back. A credential that cannot be read, whatever the
//! reason, leaves the caller unauthenticated and says no more.

use vstd::prelude::*;
use vstd::string::StringExecFns;
use crate::clock::{clock_time, current_timestamp};
use crate::nonce::fresh_identifier;
use crate::text::same_text;
use crate::jwt::{
    claim_names, distinct_names, jwt_decode, jwt_decoding, jwt_encode, jwt_encoding,
    number_entries, read_entries, same_claims, text_entries, NumberClaims, ReadClaims,
    TextClaims,
};

verus! {

/// Why a session credential was not accepted. There is one reason only:
/// a malformed credential, a wrong signature and an expired one are not
/// told apart.
#[derive(Clone, Copy, Debug, PartialEq, Eq, Structural)]
pub enum AuthError {
    Unauthenticated,
}

/// How long a remembered session lasts: thirty days, in seconds.
pub const REMEMBERED_WINDOW: i64 = 2592000;

/// How long any other session lasts: a hundred years of 365 days, in
/// seconds.
pub const LASTING_WINDOW: i64 = 3153600000;

/// The claims a session credential carries.
#[derive(Debug)]
pub struct SessionClaims {
    pub subject: String,
    pub user_id: i64,
    pub email: String,
    pub username: String,
    pub anti_csrf_token: String,
    pub image_url: String,
    pub expires_at: i64,
}

/// Session claims as plain values.
pub struct ClaimsView {
    pub subject: Seq<char>,
    pub user_id: int,
    pub email: Seq<char>,
    pub username: Seq<char>,
    pub anti_csrf_token: Seq<char>,
    pub image_url: Seq<char>,
    pub expires_at: int,
}

impl View for SessionClaims {
    type V = ClaimsView;

    open spec fn view(&self) -> ClaimsView {
        ClaimsView {
            subject: self.subject@,
            user_id: self.user_id as int,
            email: self.email@,
            username: self.username@,
            anti_csrf_token: self.anti_csrf_token@,
            image_url: self.image_url@,
            expires_at: self.expires_at as int,
        }
    }
}

/// A session credential: the signed token for the client, and the claims
/// it carries for the caller's immediate use.
#[derive(Debug)]
pub struct SessionCredential {
    pub token: String,
    pub claims: SessionClaims,
}

/// The length of a session in seconds.
pub open spec fn session_window(remember_me: bool) -> int {
    if remember_me {
        REMEMBERED_WINDOW as int
    } else {
        LASTING_WINDOW as int
    }
}

/// The claims of a session issued at `now` for a user. The subject is the
/// username.
pub open spec fn issued_claims(
    user_id: int,
    username: Seq<char>,
    email: Seq<char>,
    image_url: Seq<char>,
    remember_me: bool,
    now: int,
    anti_csrf_token: Seq<char>,
) -> ClaimsView {
    ClaimsView {
        subject: username,
        user_id,
        email,
        username,
        anti_csrf_token,
        image_url,
        expires_at: now + session_window(remember_me),
    }
}

/// The text claims of a session, under the names they are signed with.
pub open spec fn claim_texts(claims: ClaimsView) -> TextClaims {
    seq![
        ("sub"@, claims.subject),
        ("email"@, claims.email),
        ("username"@, claims.username),
        ("xsrf_token"@, claims.anti_csrf_token),
        ("image_url"@, claims.image_url),
    ]
}

/// The number claims of a session, under the names they are signed with.
pub open spec fn claim_numbers(claims: ClaimsView) -> NumberClaims {
    seq![("id"@, claims.user_id), ("exp"@, claims.expires_at)]
}

/// The position of the first claim of a name among those read, or the
/// number of claims where there is none of that name.
pub open spec fn claim_position(entries: ReadClaims, name: Seq<char>) -> int
    decreases entries.len(),
{
    if entries.len() == 0 {
        0
    } else if entries[0].0 == name {
        0
    } else {
        1 + claim_position(entries.drop_first(), name)
    }
}

/// The text of the first claim of a name, where there is such a claim and
/// it is a text.
pub open spec fn text_claim(entries: ReadClaims, name: Seq<char>) -> Option<Seq<char>> {
    let i = claim_position(entries, name);
    if 0 <= i < entries.len() {
        entries[i].1
    } else {
        None
    }
}

/// The number of the first claim of a name, where there is such a claim
/// and it is a whole number that fits 64 bits.
pub open spec fn number_claim(entries: ReadClaims, name: Seq<char>) -> Option<int> {
    let i = claim_position(entries, name);
    if 0 <= i < entries.len() {
        entries[i].2
    } else {
        None
    }
}

/// The session claims among the claims read: all seven must be there,
/// each of its kind.
pub open spec fn claims_of(entries: ReadClaims) -> Option<ClaimsView> {
    if text_claim(entries, "sub"@) is Some && text_claim(entries, "email"@) is Some
        && text_claim(entries, "username"@) is Some && text_claim(entries, "xsrf_token"@)
        is Some && text_claim(entries, "image_url"@) is Some && number_claim(entries, "id"@)
        is Some && number_claim(entries, "exp"@) is Some {
        Some(
            ClaimsView {
                subject: text_claim(entries, "sub"@)->0,
                user_id: number_claim(entries, "id"@)->0,
                email: text_claim(entries, "email"@)->0,
                username: text_claim(entries, "username"@)->0,
                anti_csrf_token: text_claim(entries, "xsrf_token"@)->0,
                image_url: text_claim(entries, "image_url"@)->0,
                expires_at: number_claim(entries, "exp"@)->0,
            },
        )
    } else {
        None
    }
}

/// What reading a credential at a given time under a secret comes to: the
/// claims, where the token is accepted, holds all seven claims and expires
/// after `now`.
pub open spec fn session_outcome(token: Seq<char>, now: int, secret: Seq<u8>) -> Result<
    ClaimsView,
    AuthError,
> {
    match jwt_decoding(token, secret) {
        None => Err(AuthError::Unauthenticated),
        Some(entries) => match claims_of(entries) {
            None => Err(AuthError::Unauthenticated),
            Some(claims) => if claims.expires_at > now {
                Ok(claims)
            } else {
                Err(AuthError::Unauthenticated)
            },
        },
    }
}

/// The first claim of a name stands where `claim_position` says: it has
/// that name, and no claim before it has.
pub proof fn lemma_claim_position(entries: ReadClaims, name: Seq<char>)
    ensures
        0 <= claim_position(entries, name) <= entries.len(),
        claim_position(entries, name) < entries.len() ==> entries[claim_position(
            entries,
            name,
        )].0 == name,
        forall|j: int| 0 <= j < claim_position(entries, name) ==> (#[trigger] entries[j]).0 != name,
    decreases entries.len(),
{
    if entries.len() > 0 && entries[0].0 != name {
        let rest = entries.drop_first();
        lemma_claim_position(rest, name);
        assert forall|j: int| 0 <= j < claim_position(entries, name) implies (
        #[trigger] entries[j]).0 != name by {
            if j > 0 {
                assert(entries[j] == rest[j - 1]);
            }
        }
        if claim_position(entries, name) < entries.len() {
            assert(entries[claim_position(entries, name)] == rest[claim_position(rest, name)]);
        }
    }
}

/// The seven names that session claims are signed under differ from one
/// another.
pub proof fn lemma_claim_names_distinct(claims: ClaimsView)
    ensures
        distinct_names(claim_texts(claims), claim_numbers(claims)),
{
    reveal_strlit("sub");
    reveal_strlit("email");
    reveal_strlit("username");
    reveal_strlit("xsrf_token");
    reveal_strlit("image_url");
    reveal_strlit("id");
    reveal_strlit("exp");
    let names = claim_names(claim_texts(claims), claim_numbers(claims));
    assert(names.len() == 7);
    assert(names[0] == "sub"@);
    assert(names[1] == "email"@);
    assert(names[2] == "username"@);
    assert(names[3] == "xsrf_token"@);
    assert(names[4] == "image_url"@);
    assert(names[5] == "id"@);
    assert(names[6] == "exp"@);
    assert("sub"@.len() == 3 && "sub"@[0] == 's');
    assert("exp"@.len() == 3 && "exp"@[0] == 'e');
    assert("email"@.len() == 5);
    assert("username"@.len() == 8);
    assert("xsrf_token"@.len() == 10);
    assert("image_url"@.len() == 9);
    assert("id"@.len() == 2);
}

/// Among claims read back in whatever order, each text claim of a session
/// is found under its name.
proof fn lemma_text_read_back(claims: ClaimsView, read: ReadClaims, k: int)
    requires
        same_claims(read, claim_texts(claims), claim_numbers(claims)),
        0 <= k < 5,
    ensures
        text_claim(read, claim_texts(claims)[k].0) == Some(claim_texts(claims)[k].1),
{
    let texts = claim_texts(claims);
    let numbers = claim_numbers(claims);
    let (name, value) = texts[k];
    lemma_claim_names_distinct(claims);
    let names = claim_names(texts, numbers);
    assert(names[k] == name);
    assert(texts.contains((name, value)));
    let wanted = (name, Some(value), None::<int>);
    assert(read.contains(wanted));
    lemma_claim_position(read, name);
    let at = claim_position(read, name);
    let w = choose|w: int| 0 <= w < read.len() && read[w] == wanted;
    assert(read[w].0 == name);
    assert(at < read.len());
    let found = read[at];
    assert(read.contains(found));
    if found.1 is Some && found.2 is None && texts.contains((found.0, found.1->0)) {
        let j = choose|j: int| 0 <= j < texts.len() && texts[j] == (found.0, found.1->0);
        assert(names[j] == name);
    } else {
        let j = choose|j: int| 0 <= j < numbers.len() && numbers[j] == (found.0, found.2->0);
        assert(names[5 + j] == name);
    }
}

/// Among claims read back in whatever order, each number claim of a
/// session is found under its name.
proof fn lemma_number_read_back(claims: ClaimsView, read: ReadClaims, k: int)
    requires
        same_claims(read, claim_texts(claims), claim_numbers(claims)),
        0 <= k < 2,
    ensures
        number_claim(read, claim_numbers(claims)[k].0) == Some(claim_numbers(claims)[k].1),
{
    let texts = claim_texts(claims);
    let numbers = claim_numbers(claims);
    let (name, value) = numbers[k];
    lemma_claim_names_distinct(claims);
    let names = claim_names(texts, numbers);
    assert(names[5 + k] == name);
    assert(numbers.contains((name, value)));
    let wanted = (name, None::<Seq<char>>, Some(value));
    assert(read.contains(wanted));
    lemma_claim_position(read, name);
    let at = claim_position(read, name);
    let w = choose|w: int| 0 <= w < read.len() && read[w] == wanted;
    assert(read[w].0 == name);
    assert(at < read.len());
    let found = read[at];
    assert(read.contains(found));
    if found.1 is Some && found.2 is None && texts.contains((found.0, found.1->0)) {
        let j = choose|j: int| 0 <= j < texts.len() && texts[j] == (found.0, found.1->0);
        assert(names[j] == name);
    } else {
        let j = choose|j: int| 0 <= j < numbers.len() && numbers[j] == (found.0, found.2->0);
        assert(names[5 + j] == name);
    }
}

/// Claims that are read back as those of a session, in whatever order,
/// hold that session's claims.
pub proof fn lemma_claims_read_back(claims: ClaimsView, read: ReadClaims)
    requires
        same_claims(read, claim_texts(claims), claim_numbers(claims)),
    ensures
        claims_of(read) == Some(claims),
{
    lemma_text_read_back(claims, read, 0);
    lemma_text_read_back(claims, read, 1);
    lemma_text_read_back(claims, read, 2);
    lemma_text_read_back(claims, read, 3);
    lemma_text_read_back(claims, read, 4);
    lemma_number_read_back(claims, read, 0);
    lemma_number_read_back(claims, read, 1);
}

/// Finds the first claim of a name among those read: its position, or the
/// number of claims where there is none of that name.
pub fn find_claim(entries: &Vec<(String, Option<String>, Option<i64>)>, name: &str) -> (at: usize)
    ensures
        at as int == claim_position(read_entries(entries@), name@),
        at <= entries@.len(),
{
    let ghost all = read_entries(entries@);
    let n: usize = entries.len();
    let mut i: usize = 0;
    assert(all.skip(0) =~= all);
    while i < n
        invariant
            i <= n,
            n == entries@.len(),
            all == read_entries(entries@),
            claim_position(all, name@) == i + claim_position(all.skip(i as int), name@),
        decreases n - i,
    {
        proof {
            assert(all.skip(i as int)[0] == all[i as int]);
            assert(all.skip(i as int).drop_first() =~= all.skip(i + 1));
        }
        if same_text(entries[i].0.as_str(), name) {
            return i;
        }
        i += 1;
    }
    n
}

/// Looks a text claim up by its name: the text of the first claim of that
/// name, where it is a text.
pub fn find_text(entries: &Vec<(String, Option<String>, Option<i64>)>, name: &str) -> (r: Option<
    String,
>)
    ensures
        match r {
            Some(value) => text_claim(read_entries(entries@), name@) == Some(value@),
            None => text_claim(read_entries(entries@), name@) is None,
        },
{
    let at: usize = find_claim(entries, name);
    if at < entries.len() {
        entries[at].1.clone()
    } else {
        None
    }
}

/// Looks a number claim up by its name: the number of the first claim of
/// that name, where it is a whole number that fits 64 bits.
pub fn find_number(entries: &Vec<(String, Option<String>, Option<i64>)>, name: &str) -> (r: Option<
    i64,
>)
    ensures
        match r {
            Some(value) => number_claim(read_entries(entries@), name@) == Some(value as int),
            None => number_claim(read_entries(entries@), name@) is None,
        },
{
    let at: usize = find_claim(entries, name);
    if at < entries.len() {
        entries[at].2
    } else {
        None
    }
}

impl SessionClaims {
    /// The text claims, under the names they are signed with.
    pub fn texts(&self) -> (list: Vec<(String, String)>)
        ensures
            text_entries(list@) == claim_texts(self@),
    {
        let mut list: Vec<(String, String)> = Vec::new();
        list.push((String::from_str("sub"), self.subject.clone()));
        list.push((String::from_str("email"), self.email.clone()));
        list.push((String::from_str("username"), self.username.clone()));
        list.push((String::from_str("xsrf_token"), self.anti_csrf_token.clone()));
        list.push((String::from_str("image_url"), self.image_url.clone()));
        assert(text_entries(list@) =~= claim_texts(self@));
        list
    }

    /// The number claims, under the names they are signed with.
    pub fn numbers(&self) -> (list: Vec<(String, i64)>)
        ensures
            number_entries(list@) == claim_numbers(self@),
    {
        let mut list: Vec<(String, i64)> = Vec::new();
        list.push((String::from_str("id"), self.user_id));
        list.push((String::from_str("exp"), self.expires_at));
        assert(number_entries(list@) =~= claim_numbers(self@));
        list
    }

    /// The session claims among the claims read, where all seven are
    /// there, each of its kind.
    pub fn from_entries(entries: &Vec<(String, Option<String>, Option<i64>)>) -> (r: Option<
        SessionClaims,
    >)
        ensures
            match r {
                Some(claims) => claims_of(read_entries(entries@)) == Some(claims@),
                None => claims_of(read_entries(entries@)) is None,
            },
    {
        let subject: String = match find_text(entries, "sub") {
            Some(v) => v,
            None => {
                return None;
            },
        };
        let email: String = match find_text(entries, "email") {
            Some(v) => v,
            None => {
                return None;
            },
        };
        let username: String = match find_text(entries, "username") {
            Some(v) => v,
            None => {
                return None;
            },
        };
        let anti_csrf_token: String = match find_text(entries, "xsrf_token") {
            Some(v) => v,
            None => {
                return None;
            },
        };
        let image_url: String = match find_text(entries, "image_url") {
            Some(v) => v,
            None => {
                return None;
            },
        };
        let user_id: i64 = match find_number(entries, "id") {
            Some(v) => v,
            None => {
                return None;
            },
        };
        let expires_at: i64 = match find_number(entries, "exp") {
            Some(v) => v,
            None => {
                return None;
            },
        };
        Some(
            SessionClaims {
                subject,
                user_id,
                email,
                username,
                anti_csrf_token,
                image_url,
                expires_at,
            },
        )
    }

    /// The claims of a session issued at `now` for a user.
    pub fn issued(
        user_id: i64,
        username: &str,
        email: &str,
        image_url: &str,
        remember_me: bool,
        now: i64,
        anti_csrf_token: &str,
    ) -> (claims: SessionClaims)
        requires
            now + session_window(remember_me) <= i64::MAX,
        ensures
            claims@ == issued_claims(
                user_id as int,
                username@,
                email@,
                image_url@,
                remember_me,
                now as int,
                anti_csrf_token@,
            ),
            claims@.expires_at > now,
    {
        let window: i64 = if remember_me {
            REMEMBERED_WINDOW
        } else {
            LASTING_WINDOW
        };
        SessionClaims {
            subject: username.to_owned(),
            user_id,
            email: email.to_owned(),
            username: username.to_owned(),
            anti_csrf_token: anti_csrf_token.to_owned(),
            image_url: image_url.to_owned(),
            expires_at: now + window,
        }
    }
}

/// Whether a credential carries a session's claims, is the token written
/// for them under the secret, and reads back to them at every time before
/// they expire.
pub open spec fn credential_for(credential: SessionCredential, claims: ClaimsView, secret: Seq<u8>) -> bool {
    &&& credential.claims@ == claims
    &&& credential.token@ == jwt_encoding(claim_texts(claims), claim_numbers(claims), secret)
    &&& forall|t: int|
        t < claims.expires_at ==> #[trigger] session_outcome(credential.token@, t, secret) == Ok::<
            ClaimsView,
            AuthError,
        >(claims)
}

/// The session credential service: holds the secret that credentials are
/// signed with.
pub struct SessionService {
    secret: Vec<u8>,
}

impl SessionService {
    /// The secret this service signs with.
    pub closed spec fn secret(&self) -> Seq<u8> {
        self.secret@
    }

    /// A service that signs and reads with `secret`.
    pub fn new(secret: Vec<u8>) -> (service: SessionService)
        ensures
            service.secret() == secret@,
    {
        SessionService { secret }
    }

    /// Issues the credential of a session that starts at `now`, with the
    /// anti-CSRF token given. The credential carries the claims of that
    /// session and the token that signing them writes, and reads back to
    /// the claims at every time before they expire.
    pub fn issue_at(
        &self,
        user_id: i64,
        username: &str,
        email: &str,
        image_url: &str,
        remember_me: bool,
        now: i64,
        anti_csrf_token: &str,
    ) -> (credential: SessionCredential)
        requires
            now + session_window(remember_me) <= i64::MAX,
        ensures
            credential_for(
                credential,
                issued_claims(
                    user_id as int,
                    username@,
                    email@,
                    image_url@,
                    remember_me,
                    now as int,
                    anti_csrf_token@,
                ),
                self.secret(),
            ),
    {
        let claims: SessionClaims = SessionClaims::issued(
            user_id,
            username,
            email,
            image_url,
            remember_me,
            now,
            anti_csrf_token,
        );
        let texts: Vec<(String, String)> = claims.texts();
        let numbers: Vec<(String, i64)> = claims.numbers();
        let token: String = match jwt_encode(&texts, &numbers, self.secret.as_slice()) {
            Some(t) => t,
            None => vstd::pervasive::unreached(),
        };
        proof {
            lemma_claim_names_distinct(claims@);
            let read = jwt_decoding(token@, self.secret())->0;
            lemma_claims_read_back(claims@, read);
        }
        SessionCredential { token, claims }
    }

    /// Issues the credential of a session that starts now, with a fresh
    /// random anti-CSRF token. The time and the token are drawn here, so
    /// the contract speaks of some time that the clock can give and of
    /// some token. Every such time leaves room for the expiry.
    pub fn issue(
        &self,
        user_id: i64,
        username: &str,
        email: &str,
        image_url: &str,
        remember_me: bool,
    ) -> (credential: SessionCredential)
        ensures
            exists|now: i64, anti_csrf_token: Seq<char>|
                clock_time(now as int) && #[trigger] credential_for(
                    credential,
                    issued_claims(
                        user_id as int,
                        username@,
                        email@,
                        image_url@,
                        remember_me,
                        now as int,
                        anti_csrf_token,
                    ),
                    self.secret(),
                ),
    {
        let now: i64 = current_timestamp();
        let anti_csrf_token: String = fresh_identifier();
        self.issue_at(
            user_id,
            username,
            email,
            image_url,
            remember_me,
            now,
            anti_csrf_token.as_str(),
        )
    }

    /// Reads a credential at the time `now`: the claims where the token is
    /// accepted under the secret, holds all seven claims and expires after
    /// `now`; in every other case the caller is unauthenticated.
    pub fn decode_at(&self, credential: &str, now: i64) -> (r: Result<SessionClaims, AuthError>)
        ensures
            match r {
                Ok(claims) => session_outcome(credential@, now as int, self.secret()) == Ok::<
                    ClaimsView,
                    AuthError,
                >(claims@),
                Err(e) => session_outcome(credential@, now as int, self.secret()) == Err::<
                    ClaimsView,
                    AuthError,
                >(e),
            },
    {
        match jwt_decode(credential, self.secret.as_slice()) {
            None => Err(AuthError::Unauthenticated),
            Some(entries) => match SessionClaims::from_entries(&entries) {
                None => Err(AuthError::Unauthenticated),
                Some(claims) => {
                    if claims.expires_at > now {
                        Ok(claims)
                    } else {
                        Err(AuthError::Unauthenticated)
                    }
                },
            },
        }
    }

    /// Reads a credential now. The time is read from the clock, so the
    /// contract speaks of some time that the clock can give: a credential
    /// that is good at every such time is accepted, one that is good at
    /// none is refused.
    pub fn decode(&self, credential: &str) -> (r: Result<SessionClaims, AuthError>)
        ensures
            exists|now: i64|
                clock_time(now as int) && match r {
                    Ok(claims) => #[trigger] session_outcome(
                        credential@,
                        now as int,
                        self.secret(),
                    ) == Ok::<ClaimsView, AuthError>(claims@),
                    Err(e) => session_outcome(credential@, now as int, self.secret()) == Err::<
                        ClaimsView,
                        AuthError,
                    >(e),
                },
    {
        let now: i64 = current_timestamp();
        self.decode_at(credential, now)
    }
}

} // verus!
