//! User registration: the request, the persisted row, the uniqueness
//! invariant on emails, and the handler that turns an insert outcome into
//! an HTTP response.
//!
//! The table here is the semantic model of the persisted store: one row per
//! user, emails unique, `created_at` assigned by the server. A deployment
//! keeps the rows in a relational database instead and reports the insert
//! outcome back; the classification of that outcome and the responses built
//! from it are shared with this model and verified once.

use vstd::prelude::*;
use vstd::string::StringExecFns;
use crate::hashing::{make_hash, spec_is_phc_string};
use crate::http::{Response, STATUS_CONFLICT, STATUS_CREATED, STATUS_INTERNAL_ERROR};
use crate::json::{spec_user_created_body, user_created_body};
use crate::timestamp::Timestamp;

verus! {

/// A registration request: an optional display name, an email, and the raw
/// password. The raw password is request-scoped: it is hashed and dropped,
/// never stored and never echoed.
pub struct NewUserRequest {
    pub username: Option<String>,
    pub email: String,
    pub password: String,
}

impl NewUserRequest {
    /// The requested display name, as its character sequence.
    pub open spec fn spec_name(self) -> Option<Seq<char>> {
        match self.username {
            Option::None => Option::None,
            Option::Some(n) => Option::Some(n@),
        }
    }
}

/// One persisted user row.
pub struct StoredUser {
    pub name: Option<String>,
    pub email: String,
    pub password_hash: String,
    pub created_at: Timestamp,
}

/// What a single-row insert into the users table came to.
pub enum InsertOutcome {
    /// The row went in; the store echoed name and email and assigned the
    /// creation time.
    Inserted { name: Option<String>, email: String, created_at: Timestamp },
    /// The row was refused for a duplicate email.
    DuplicateEmail,
    /// The store failed for any other reason.
    Failure,
}

/// The users table: rows with pairwise-distinct emails.
pub struct UsersTable {
    rows: Vec<StoredUser>,
}

impl View for UsersTable {
    type V = Seq<StoredUser>;

    closed spec fn view(&self) -> Seq<StoredUser> {
        self.rows@
    }
}

impl UsersTable {
    /// The uniqueness invariant: no two rows share an email.
    pub open spec fn wf(self) -> bool {
        forall|i: int, j: int|
            0 <= i < j < self@.len() ==> self@[i].email@ != self@[j].email@
    }

    /// Whether some row carries the given email.
    pub open spec fn spec_has_email(self, email: Seq<char>) -> bool {
        exists|i: int| 0 <= i < self@.len() && #[trigger] self@[i].email@ == email
    }

    /// An empty table.
    pub fn new() -> (t: UsersTable)
        ensures
            t@.len() == 0,
            t.wf(),
    {
        UsersTable { rows: Vec::new() }
    }

    /// The number of rows.
    pub fn len(&self) -> (n: usize)
        ensures
            n == self@.len(),
    {
        self.rows.len()
    }

    /// The row with the given email, if any row carries it.
    pub fn lookup(&self, email: &String) -> (r: Option<&StoredUser>)
        ensures
            r is Some <==> self.spec_has_email(email@),
            r matches Some(u) ==> u.email@ == email@ && (exists|i: int|
                0 <= i < self@.len() && *u == #[trigger] self@[i]),
    {
        let n = self.rows.len();
        let mut k: usize = 0;
        while k < n
            invariant
                n == self@.len(),
                k <= n,
                forall|j: int| 0 <= j < k ==> #[trigger] self@[j].email@ != email@,
            decreases n - k,
        {
            if self.rows[k].email == *email {
                return Some(&self.rows[k]);
            }
            k = k + 1;
        }
        None
    }

    /// Inserts one row, assigning the given creation time, unless a row
    /// with the same email is already present; the emails stay unique.
    pub fn insert(
        &mut self,
        name: Option<String>,
        email: String,
        password_hash: String,
        created_at: Timestamp,
    ) -> (r: InsertOutcome)
        requires
            old(self).wf(),
        ensures
            final(self).wf(),
            old(self).spec_has_email(email@) ==> r is DuplicateEmail && final(self)@ == old(self)@,
            !old(self).spec_has_email(email@) ==> final(self)@ == old(self)@.push(
                (StoredUser { name, email, password_hash, created_at }),
            ) && r == (InsertOutcome::Inserted { name, email, created_at }),
    {
        if self.lookup(&email).is_some() {
            return InsertOutcome::DuplicateEmail;
        }
        let out_name = match &name {
            Option::None => Option::<String>::None,
            Option::Some(n) => Option::Some(n.clone()),
        };
        let out_email = email.clone();
        self.rows.push(StoredUser { name, email, password_hash, created_at });
        InsertOutcome::Inserted { name: out_name, email: out_email, created_at }
    }
}

/// The response for each outcome of the insert: the created row as JSON
/// with 201, the fixed conflict message with 409 on a duplicate email, and
/// the fixed opaque message with 500 otherwise. No internal detail and no
/// password leaves the handler.
pub fn registration_response(outcome: InsertOutcome) -> (r: Response)
    requires
        outcome matches InsertOutcome::Inserted { created_at, .. } ==> created_at.wf(),
    ensures
        match outcome {
            InsertOutcome::Inserted { name, email, created_at } => r.status == STATUS_CREATED
                && r.body@ == spec_user_created_body(
                match name {
                    Option::None => Option::None,
                    Option::Some(n) => Option::Some(n@),
                },
                email@,
                created_at,
            ),
            InsertOutcome::DuplicateEmail => r.status == STATUS_CONFLICT && r.body@
                == "Email already exists"@,
            InsertOutcome::Failure => r.status == STATUS_INTERNAL_ERROR && r.body@
                == "Error adding user to database"@,
        },
{
    match outcome {
        InsertOutcome::Inserted { name, email, created_at } => Response {
            status: STATUS_CREATED,
            body: user_created_body(&name, email.as_str(), &created_at),
        },
        InsertOutcome::DuplicateEmail => Response {
            status: STATUS_CONFLICT,
            body: String::from_str("Email already exists"),
        },
        InsertOutcome::Failure => Response {
            status: STATUS_INTERNAL_ERROR,
            body: String::from_str("Error adding user to database"),
        },
    }
}

/// What one registration against the table comes to, given the encoded
/// password hash: a conflict that leaves the table alone when the email is
/// taken, and otherwise a created row echoed back as JSON.
pub open spec fn spec_registers(
    pre: UsersTable,
    req: NewUserRequest,
    password_hash: String,
    now: Timestamp,
    post: UsersTable,
    r: Response,
) -> bool {
    if pre.spec_has_email(req.email@) {
        &&& r.status == STATUS_CONFLICT
        &&& r.body@ == "Email already exists"@
        &&& post@ == pre@
    } else {
        &&& r.status == STATUS_CREATED
        &&& r.body@ == spec_user_created_body(req.spec_name(), req.email@, now)
        &&& post@ == pre@.push(
            (StoredUser {
                name: req.username,
                email: req.email,
                password_hash,
                created_at: now,
            }),
        )
    }
}

/// Registers a user whose password is already hashed: inserts the row and
/// answers 201 with the created row, or 409 on a duplicate email.
pub fn create_user_with_hash(
    table: &mut UsersTable,
    req: &NewUserRequest,
    password_hash: String,
    now: Timestamp,
) -> (r: Response)
    requires
        old(table).wf(),
        now.wf(),
    ensures
        final(table).wf(),
        spec_registers(*old(table), *req, password_hash, now, *final(table), r),
{
    let name = match &req.username {
        Option::None => Option::<String>::None,
        Option::Some(n) => Option::Some(n.clone()),
    };
    let outcome = table.insert(name, req.email.clone(), password_hash, now);
    registration_response(outcome)
}

/// The registration handler: hashes the raw password, inserts the row, and
/// classifies the outcome. A hashing failure answers 500 before any row is
/// touched; otherwise the table registers the request under some encoded
/// hash.
pub fn create_user(table: &mut UsersTable, req: &NewUserRequest, now: Timestamp) -> (r: Response)
    requires
        old(table).wf(),
        now.wf(),
    ensures
        final(table).wf(),
        (r.status == STATUS_INTERNAL_ERROR && r.body@ == "Error hashing password"@
            && final(table)@ == old(table)@) || (exists|h: String|
            spec_is_phc_string(h@) && #[trigger] spec_registers(
                *old(table),
                *req,
                h,
                now,
                *final(table),
                r,
            )),
{
    match make_hash(req.password.as_str().as_bytes()) {
        Err(msg) => Response { status: STATUS_INTERNAL_ERROR, body: String::from_str(msg) },
        Ok(hashed) => {
            let ghost h = hashed;
            let resp = create_user_with_hash(table, req, hashed, now);
            proof {
                assert(spec_is_phc_string(h@) && spec_registers(
                    *old(table),
                    *req,
                    h,
                    now,
                    *table,
                    resp,
                ));
            }
            resp
        },
    }
}

/// LAW: a registration with a previously-unused email is created: the
/// response is 201, its body is the created row as JSON and so echoes the
/// submitted email, and the table then carries that email.
pub proof fn lemma_unused_email_creates(
    pre: UsersTable,
    req: NewUserRequest,
    password_hash: String,
    now: Timestamp,
    post: UsersTable,
    r: Response,
)
    requires
        !pre.spec_has_email(req.email@),
        spec_registers(pre, req, password_hash, now, post, r),
    ensures
        r.status == STATUS_CREATED,
        r.body@ == spec_user_created_body(req.spec_name(), req.email@, now),
        post.spec_has_email(req.email@),
{
    assert(post@[pre@.len() as int].email@ == req.email@);
}

/// LAW: a registration with an email the table already carries answers 409
/// with the fixed conflict message — never 201 and never 500 — whatever the
/// password or its hash, and leaves the table unchanged.
pub proof fn lemma_duplicate_email_conflicts(
    pre: UsersTable,
    req: NewUserRequest,
    password_hash: String,
    now: Timestamp,
    post: UsersTable,
    r: Response,
)
    requires
        pre.spec_has_email(req.email@),
        spec_registers(pre, req, password_hash, now, post, r),
    ensures
        r.status == STATUS_CONFLICT,
        r.body@ == "Email already exists"@,
        post@ == pre@,
{
}

/// LAW: running the same successful registration request twice yields 201
/// and then 409: the registration is not idempotent, the second run is
/// refused.
pub proof fn lemma_repeat_registration(
    pre: UsersTable,
    req: NewUserRequest,
    hash1: String,
    now1: Timestamp,
    mid: UsersTable,
    r1: Response,
    hash2: String,
    now2: Timestamp,
    post: UsersTable,
    r2: Response,
)
    requires
        !pre.spec_has_email(req.email@),
        spec_registers(pre, req, hash1, now1, mid, r1),
        spec_registers(mid, req, hash2, now2, post, r2),
    ensures
        r1.status == STATUS_CREATED,
        r2.status == STATUS_CONFLICT,
        post@ == mid@,
{
    lemma_unused_email_creates(pre, req, hash1, now1, mid, r1);
    lemma_duplicate_email_conflicts(mid, req, hash2, now2, post, r2);
}

} // verus!
