//! The rules of the relay server's account endpoints: what a registration
//! must look like, how a games listing is paged, and which status and body
//! each failure answers with.
use vstd::prelude::*;
use vstd::string::*;
use vstd::utf8::encode_utf8;

verus! {

/// The page size used when a games query names none.
pub fn default_per_page() -> (n: i64)
    ensures
        n == 20,
{
    20
}

/// The paging parameters of a games listing.
#[derive(Clone, Copy, Debug, PartialEq, Eq, Structural)]
pub struct GamesQuery {
    pub page: i64,
    pub per_page: i64,
}

/// The page size clamped into 1..=100 and the page index raised to at least 0.
pub open spec fn window(page: i64, per_page: i64) -> (i64, i64) {
    let size = if per_page < 1 {
        1
    } else if per_page > 100 {
        100
    } else {
        per_page
    };
    let index = if page < 0 {
        0
    } else {
        page
    };
    (index, size)
}

impl GamesQuery {
    /// A query with the defaults: the first page of 20 games.
    pub fn new_default() -> (q: GamesQuery)
        ensures
            q.page == 0,
            q.per_page == 20,
    {
        GamesQuery { page: 0, per_page: default_per_page() }
    }

    /// The page index and page size that the listing uses: the size clamped
    /// into 1..=100, the index raised to at least 0.
    pub fn page_window(&self) -> (w: (i64, i64))
        ensures
            w == window(self.page, self.per_page),
    {
        let per_page = if self.per_page < 1 {
            1
        } else if self.per_page > 100 {
            100
        } else {
            self.per_page
        };
        let page = if self.page < 0 {
            0
        } else {
            self.page
        };
        (page, per_page)
    }
}

/// Paging an already paged window changes nothing, and every window has a
/// page size in 1..=100 and a page index of at least 0.
pub proof fn lemma_window_idempotent(page: i64, per_page: i64)
    ensures
        ({
            let (p, s) = window(page, per_page);
            &&& window(p, s) == (p, s)
            &&& 1 <= s <= 100
            &&& p >= 0
            &&& (1 <= per_page <= 100 ==> s == per_page)
            &&& (page >= 0 ==> p == page)
        }),
{
}

/// Why a request failed.
#[derive(Clone, Debug)]
pub enum AppError {
    /// The database failed; the text describes the failure.
    Database(String),
    NotFound,
    Conflict(&'static str),
    BadRequest(&'static str),
    Unauthorized,
    Internal,
}

/// The answer to a failure: an HTTP status code and a plain-text body.
pub open spec fn response_of(e: AppError) -> (u16, Seq<char>) {
    match e {
        AppError::Database(_) => (500, "internal error"@),
        AppError::NotFound => (404, ""@),
        AppError::Conflict(msg) => (409, msg@),
        AppError::BadRequest(msg) => (400, msg@),
        AppError::Unauthorized => (401, ""@),
        AppError::Internal => (500, ""@),
    }
}

impl AppError {
    /// The status code and body that this failure is answered with. A
    /// database failure is reported to the client only as an internal error.
    pub fn status_and_body(&self) -> (r: (u16, &'static str))
        ensures
            (r.0, r.1@) == response_of(*self),
    {
        match self {
            AppError::Database(_) => (500, "internal error"),
            AppError::NotFound => (404, ""),
            AppError::Conflict(msg) => (409, *msg),
            AppError::BadRequest(msg) => (400, *msg),
            AppError::Unauthorized => (401, ""),
            AppError::Internal => (500, ""),
        }
    }
}

/// The user that a login names, or the failure answered: credentials that
/// match no user are unauthorized, and a failed check is an internal error.
pub fn check_authentication<User>(outcome: Result<Option<User>, ()>) -> (r: Result<User, AppError>)
    ensures
        match outcome {
            Ok(Some(u)) => r == Ok::<User, AppError>(u),
            Ok(None) => r == Err::<User, AppError>(AppError::Unauthorized),
            Err(_) => r == Err::<User, AppError>(AppError::Internal),
        },
{
    match outcome {
        Ok(Some(u)) => Ok(u),
        Ok(None) => Err(AppError::Unauthorized),
        Err(_) => Err(AppError::Internal),
    }
}

/// The user that a profile or games listing names, or not found.
pub fn require_user<User>(found: Option<User>) -> (r: Result<User, AppError>)
    ensures
        match found {
            Some(u) => r == Ok::<User, AppError>(u),
            None => r == Err::<User, AppError>(AppError::NotFound),
        },
{
    match found {
        Some(u) => Ok(u),
        None => Err(AppError::NotFound),
    }
}

/// The signed-in user that `me` answers with, or unauthorized.
pub fn require_signed_in<User>(user: Option<User>) -> (r: Result<User, AppError>)
    ensures
        match user {
            Some(u) => r == Ok::<User, AppError>(u),
            None => r == Err::<User, AppError>(AppError::Unauthorized),
        },
{
    match user {
        Some(u) => Ok(u),
        None => Err(AppError::Unauthorized),
    }
}

/// The text occurs in `haystack` at position `at`.
pub open spec fn occurs_at(haystack: Seq<char>, needle: Seq<char>, at: int) -> bool {
    0 <= at && at + needle.len() <= haystack.len() && haystack.subrange(at, at + needle.len())
        == needle
}

/// `needle` occurs somewhere in `haystack`.
pub open spec fn contains_text(haystack: Seq<char>, needle: Seq<char>) -> bool {
    exists|at: int| occurs_at(haystack, needle, at)
}

/// The characters of `s`, in order.
fn chars_of(s: &str) -> (v: Vec<char>)
    ensures
        v@ == s@,
{
    broadcast use axiom_spec_iter;

    let mut v: Vec<char> = Vec::new();
    for ch in it: s.chars()
        invariant
            it.seq() == s@,
            v@.len() == it.index(),
            it.index() <= s@.len(),
            forall|j: int| 0 <= j < it.index() ==> v@[j] == s@[j],
    {
        v.push(ch);
    }
    assert(v@ =~= s@);
    v
}

/// Whether `needle` occurs at position `at` of `haystack`.
fn matches_at(haystack: &Vec<char>, needle: &Vec<char>, at: usize) -> (found: bool)
    requires
        at + needle@.len() <= haystack@.len(),
    ensures
        found == occurs_at(haystack@, needle@, at as int),
{
    let hl = haystack.len();
    let mut j: usize = 0;
    while j < needle.len()
        invariant
            hl == haystack@.len(),
            j <= needle@.len(),
            at + needle@.len() <= haystack@.len(),
            forall|i: int| 0 <= i < j ==> haystack@[at + i] == needle@[i],
        decreases needle@.len() - j,
    {
        if haystack[at + j] != needle[j] {
            assert(haystack@.subrange(at as int, at + needle@.len())[j as int] != needle@[j as int]);
            return false;
        }
        j = j + 1;
    }
    assert(haystack@.subrange(at as int, at + needle@.len()) =~= needle@);
    true
}

/// Whether `needle` occurs in `haystack`.
fn text_contains(haystack: &str, needle: &str) -> (found: bool)
    ensures
        found == contains_text(haystack@, needle@),
{
    let h = chars_of(haystack);
    let n = chars_of(needle);
    if n.len() == 0 {
        assert(h@.subrange(0, 0) =~= n@);
        assert(occurs_at(h@, n@, 0));
        return true;
    }
    if n.len() > h.len() {
        return false;
    }
    let hl = h.len();
    let last = hl - n.len();
    let mut at: usize = 0;
    while at <= last
        invariant
            hl == h@.len(),
            n@.len() >= 1,
            last < hl,
            h@ == haystack@,
            n@ == needle@,
            last == h@.len() - n@.len(),
            at <= last + 1,
            forall|i: int| 0 <= i < at ==> !occurs_at(h@, n@, i),
        decreases last + 1 - at,
    {
        if matches_at(&h, &n, at) {
            return true;
        }
        at = at + 1;
    }
    assert forall|i: int| !occurs_at(h@, n@, i) by {
        if 0 <= i && i + n@.len() <= h@.len() {
            assert(i < at);
        }
    }
    false
}

/// The unique-constraint text of the database's error messages.
pub open spec fn unique_violation_text() -> Seq<char> {
    "UNIQUE constraint failed"@
}

/// Whether a database error message reports a violated unique constraint.
pub fn is_unique_violation(message: &str) -> (unique: bool)
    ensures
        unique == contains_text(message@, unique_violation_text()),
{
    text_contains(message, "UNIQUE constraint failed")
}

/// The failure that a failed user insert is answered with: a taken name or
/// address when the database reports a unique-constraint violation,
/// otherwise the database failure itself. `database_message` is the
/// database's own message, when the failure came from the database.
pub fn classify_create_user_error(database_message: Option<&str>, description: String) -> (e:
    AppError)
    ensures
        (database_message matches Some(m) && contains_text(m@, unique_violation_text())) ==> e
            == AppError::Conflict("username or email already taken"),
        !(database_message matches Some(m) && contains_text(m@, unique_violation_text())) ==> e
            == AppError::Database(description),
{
    match database_message {
        Some(m) => {
            if is_unique_violation(m) {
                return AppError::Conflict("username or email already taken");
            }
        },
        None => {},
    }
    AppError::Database(description)
}

/// A registration request.
#[derive(Clone, Debug)]
pub struct RegisterBody {
    pub username: String,
    pub email: String,
    pub password: String,
}

/// The byte length of a text in UTF-8, as `str::len` reports it.
pub open spec fn byte_len(s: Seq<char>) -> usize {
    encode_utf8(s).len() as usize
}

/// The rejection of a registration, or `None` when it is acceptable: the
/// username must have 3 to 30 bytes, the password at least 8 bytes, and the
/// email must contain an `@`; the first rule broken is reported.
pub open spec fn registration_problem(username: Seq<char>, email: Seq<char>, password: Seq<char>) -> Option<
    Seq<char>,
> {
    if byte_len(username) < 3 || byte_len(username) > 30 {
        Some("username must be 3–30 characters"@)
    } else if byte_len(password) < 8 {
        Some("password must be at least 8 characters"@)
    } else if !email.contains('@') {
        Some("invalid email address"@)
    } else {
        None
    }
}

impl RegisterBody {
    /// Checks the request before anything is stored.
    pub fn validate(&self) -> (r: Result<(), AppError>)
        ensures
            registration_problem(self.username@, self.email@, self.password@) matches Some(msg)
                ==> r matches Err(AppError::BadRequest(m)) && m@ == msg,
            registration_problem(self.username@, self.email@, self.password@) is None ==> r is Ok,
    {
        let username_len = self.username.as_str().len();
        if username_len < 3 || username_len > 30 {
            return Err(AppError::BadRequest("username must be 3–30 characters"));
        }
        if self.password.as_str().len() < 8 {
            return Err(AppError::BadRequest("password must be at least 8 characters"));
        }
        if !contains_char(self.email.as_str(), '@') {
            return Err(AppError::BadRequest("invalid email address"));
        }
        Ok(())
    }
}

/// Whether `s` contains the character `c`.
fn contains_char(s: &str, c: char) -> (found: bool)
    ensures
        found == s@.contains(c),
{
    let v = chars_of(s);
    let mut i: usize = 0;
    while i < v.len()
        invariant
            v@ == s@,
            i <= v@.len(),
            forall|j: int| 0 <= j < i ==> v@[j] != c,
        decreases v@.len() - i,
    {
        if v[i] == c {
            assert(v@[i as int] == c);
            return true;
        }
        i = i + 1;
    }
    false
}

/// A registration is accepted exactly when the username has 3 to 30 bytes,
/// the password at least 8 bytes and the email an `@`; otherwise the first
/// broken rule, in that order, is the one reported.
pub proof fn lemma_registration_rules(username: Seq<char>, email: Seq<char>, password: Seq<char>)
    ensures
        registration_problem(username, email, password) is None <==> (3 <= byte_len(username) <= 30
            && byte_len(password) >= 8 && email.contains('@')),
        byte_len(username) < 3 || byte_len(username) > 30 ==> registration_problem(
            username,
            email,
            password,
        ) == Some("username must be 3–30 characters"@),
        3 <= byte_len(username) <= 30 && byte_len(password) < 8 ==> registration_problem(
            username,
            email,
            password,
        ) == Some("password must be at least 8 characters"@),
        3 <= byte_len(username) <= 30 && byte_len(password) >= 8 && !email.contains('@')
            ==> registration_problem(username, email, password) == Some("invalid email address"@),
{
}

/// Each failure's answer: a database failure or an internal error is 500,
/// with the database's detail never shown; a missing user 404; a conflict
/// 409 and a bad request 400, each with its message; a missing login 401.
pub proof fn lemma_failure_answers(detail: String, msg: &'static str)
    ensures
        response_of(AppError::Database(detail)) == (500u16, "internal error"@),
        response_of(AppError::Internal).0 == 500,
        response_of(AppError::NotFound).0 == 404,
        response_of(AppError::Conflict(msg)) == (409u16, msg@),
        response_of(AppError::BadRequest(msg)) == (400u16, msg@),
        response_of(AppError::Unauthorized).0 == 401,
{
}

/// A text contains a needle exactly when the needle appears in it at some
/// position, whatever comes before and after it; a needle longer than the
/// text never appears.
pub proof fn lemma_contains_anywhere(before: Seq<char>, needle: Seq<char>, after: Seq<char>, h: Seq<char>)
    ensures
        contains_text(before + needle + after, needle),
        needle.len() > h.len() ==> !contains_text(h, needle),
{
    let t = before + needle + after;
    assert(t.subrange(before.len() as int, (before.len() + needle.len()) as int) =~= needle);
    assert(occurs_at(t, needle, before.len() as int));
}

} // verus!
