//! The in-memory model of the durable state: users, sessions, and
//! transactions.
//!
//! The durable rows live with an external relational-storage collaborator; the
//! core's logic is specified and verified over this explicit store, which the
//! host threads into every operation.

use vstd::prelude::*;

verus! {

/// A registered user.  `username` is the unique key, already normalized to
/// lowercase and free of the reserved `:` separator.
pub struct User {
    pub username: String,
    pub display_name: String,
    /// Base32-encoded one-time-password secret, set once at registration.
    pub otp_secret: String,
    /// Integer currency units; this core never mutates it after creation.
    pub balance: i64,
    pub otp_verified: bool,
}

/// A live session: an opaque bearer token with a sliding expiry.
pub struct Session {
    pub token: String,
    pub username: String,
    /// Absolute expiry timestamp, seconds; the token is valid iff
    /// `expires_at > now`.
    pub expires_at: i64,
}

/// The state of a transaction request.
#[derive(Clone, Copy, Debug, PartialEq, Eq, Structural)]
pub enum Status {
    Pending,
    Accepted,
    Rejected,
}

/// A transaction request, created by its seller, resolved by its buyer.
pub struct Transaction {
    /// Unique 8-character random identifier.
    pub id: String,
    pub buyer: String,
    pub seller: String,
    /// Free-text description.
    pub name: String,
    pub amount: i64,
    pub status: Status,
    pub created_at: i64,
}

/// Spec-level image of a `User`.
pub struct UserView {
    pub username: Seq<char>,
    pub display_name: Seq<char>,
    pub otp_secret: Seq<char>,
    pub balance: int,
    pub otp_verified: bool,
}

/// Spec-level image of a `Session`.
pub struct SessionView {
    pub token: Seq<char>,
    pub username: Seq<char>,
    pub expires_at: int,
}

/// Spec-level image of a `Transaction`.
pub struct TransactionView {
    pub id: Seq<char>,
    pub buyer: Seq<char>,
    pub seller: Seq<char>,
    pub name: Seq<char>,
    pub amount: int,
    pub status: Status,
    pub created_at: int,
}

impl View for User {
    type V = UserView;

    open spec fn view(&self) -> UserView {
        UserView {
            username: self.username@,
            display_name: self.display_name@,
            otp_secret: self.otp_secret@,
            balance: self.balance as int,
            otp_verified: self.otp_verified,
        }
    }
}

impl View for Session {
    type V = SessionView;

    open spec fn view(&self) -> SessionView {
        SessionView {
            token: self.token@,
            username: self.username@,
            expires_at: self.expires_at as int,
        }
    }
}

impl View for Transaction {
    type V = TransactionView;

    open spec fn view(&self) -> TransactionView {
        TransactionView {
            id: self.id@,
            buyer: self.buyer@,
            seller: self.seller@,
            name: self.name@,
            amount: self.amount as int,
            status: self.status,
            created_at: self.created_at as int,
        }
    }
}

/// The whole model state, one value per running service.
pub struct Store {
    pub users: Vec<User>,
    pub sessions: Vec<Session>,
    pub transactions: Vec<Transaction>,
}

/// Spec-level image of the whole store.
pub struct StoreView {
    pub users: Seq<UserView>,
    pub sessions: Seq<SessionView>,
    pub transactions: Seq<TransactionView>,
}

impl View for Store {
    type V = StoreView;

    open spec fn view(&self) -> StoreView {
        StoreView {
            users: self.users@.map_values(|u: User| u@),
            sessions: self.sessions@.map_values(|s: Session| s@),
            transactions: self.transactions@.map_values(|t: Transaction| t@),
        }
    }
}

/// Does `name` hold the reserved `:` separator?
pub open spec fn has_colon(name: Seq<char>) -> bool {
    exists|i: int| 0 <= i < name.len() && name[i] == ':'
}

/// ASCII case folding of one character; other characters are untouched.
pub open spec fn lower_char(c: char) -> char {
    if 'A' <= c && c <= 'Z' {
        (((c as u8) + 32) as char)
    } else {
        c
    }
}

/// ASCII case folding of a whole name: the normal form of a username.
pub open spec fn lower(name: Seq<char>) -> Seq<char> {
    name.map_values(|c: char| lower_char(c))
}

/// A username in normal form: already folded, and without the separator.
pub open spec fn normalized_username(name: Seq<char>) -> bool {
    lower(name) == name && !has_colon(name)
}

/// Folding is idempotent and cannot introduce or remove the separator, so a
/// folded name is in normal form.
pub proof fn lemma_lower_normalizes(name: Seq<char>)
    ensures
        lower(lower(name)) == lower(name),
        has_colon(lower(name)) == has_colon(name),
        !has_colon(name) ==> normalized_username(lower(name)),
{
    assert forall|c: char| #[trigger] lower_char(lower_char(c)) == lower_char(c) by {
    }
    assert forall|c: char| (#[trigger] lower_char(c) == ':') == (c == ':') by {
    }
    assert(lower(lower(name)) =~= lower(name));
    assert forall|i: int| 0 <= i < name.len() && name[i] == ':' implies lower(name)[i] == ':' by {
    }
    assert forall|i: int| 0 <= i < name.len() && lower(name)[i] == ':' implies name[i] == ':' by {
    }
}

/// Relies on String::push: appends one character at the end.
#[verifier::external_body]
fn push_char(s: &mut String, c: char)
    ensures
        final(s)@ == old(s)@.push(c),
{
    s.push(c);
}

/// ASCII case folding of one character.
fn lower_char_exec(c: char) -> (r: char)
    ensures
        r == lower_char(c),
{
    let u = c as u32;
    if 65 <= u && u <= 90 {
        ((u + 32) as u8) as char
    } else {
        c
    }
}

/// The normal form of a username: every ASCII capital folded to lowercase.
pub fn normalize_username(name: &str) -> (r: String)
    ensures
        r@ == lower(name@),
{
    let n = name.unicode_len();
    let mut out = String::new();
    let mut i: usize = 0;
    while i < n
        invariant
            n == name@.len(),
            i <= n,
            out@ == name@.subrange(0, i as int).map_values(|c: char| lower_char(c)),
        decreases n - i,
    {
        let c = name.get_char(i);
        let lc = lower_char_exec(c);
        push_char(&mut out, lc);
        proof {
            assert(name@.subrange(0, i + 1) =~= name@.subrange(0, i as int).push(name@[i as int]));
            assert(name@.subrange(0, i + 1).map_values(|c: char| lower_char(c)) =~= name@.subrange(
                0,
                i as int,
            ).map_values(|c: char| lower_char(c)).push(lower_char(name@[i as int])));
        }
        i += 1;
    }
    proof {
        assert(name@.subrange(0, n as int) =~= name@);
    }
    out
}

/// Does this name hold the reserved `:` separator?
pub fn contains_colon(name: &str) -> (r: bool)
    ensures
        r == has_colon(name@),
{
    let n = name.unicode_len();
    let mut i: usize = 0;
    while i < n
        invariant
            n == name@.len(),
            i <= n,
            forall|j: int| 0 <= j < i ==> name@[j] != ':',
        decreases n - i,
    {
        if name.get_char(i) == ':' {
            return true;
        }
        i += 1;
    }
    false
}

/// Is some user called `name`?
pub open spec fn contains_username(users: Seq<UserView>, name: Seq<char>) -> bool {
    exists|i: int| 0 <= i < users.len() && users[i].username == name
}

/// The index of the user called `name` (the store keeps usernames unique).
pub open spec fn username_index(users: Seq<UserView>, name: Seq<char>) -> int {
    choose|i: int| 0 <= i < users.len() && users[i].username == name
}

/// Is some session keyed by `token`?
pub open spec fn contains_token(sessions: Seq<SessionView>, token: Seq<char>) -> bool {
    exists|i: int| 0 <= i < sessions.len() && sessions[i].token == token
}

/// The index of the session keyed by `token` (the store keeps tokens unique).
pub open spec fn token_index(sessions: Seq<SessionView>, token: Seq<char>) -> int {
    choose|i: int| 0 <= i < sessions.len() && sessions[i].token == token
}

/// Is some transaction keyed by `id`?
pub open spec fn contains_transaction(txs: Seq<TransactionView>, id: Seq<char>) -> bool {
    exists|i: int| 0 <= i < txs.len() && txs[i].id == id
}

/// The index of the transaction keyed by `id` (the store keeps ids unique).
pub open spec fn transaction_index(txs: Seq<TransactionView>, id: Seq<char>) -> int {
    choose|i: int| 0 <= i < txs.len() && txs[i].id == id
}

impl Store {
    /// The store's invariant: every key column is unique, and usernames are
    /// kept in normal form everywhere they occur as an owner.
    pub open spec fn wf(self) -> bool {
        &&& forall|i: int, j: int|
            0 <= i < j < self@.users.len() ==> self@.users[i].username != self@.users[j].username
        &&& forall|i: int|
            0 <= i < self@.users.len() ==> normalized_username(#[trigger] self@.users[i].username)
        &&& forall|i: int, j: int|
            0 <= i < j < self@.sessions.len() ==> self@.sessions[i].token != self@.sessions[j].token
        &&& forall|i: int, j: int|
            0 <= i < j < self@.transactions.len()
                ==> self@.transactions[i].id != self@.transactions[j].id
    }

    /// An empty store, as a fresh service instance starts with.
    pub fn new() -> (r: Store)
        ensures
            r.wf(),
            r@.users == Seq::<UserView>::empty(),
            r@.sessions == Seq::<SessionView>::empty(),
            r@.transactions == Seq::<TransactionView>::empty(),
    {
        let r = Store { users: Vec::new(), sessions: Vec::new(), transactions: Vec::new() };
        proof {
            assert(r@.users =~= Seq::<UserView>::empty());
            assert(r@.sessions =~= Seq::<SessionView>::empty());
            assert(r@.transactions =~= Seq::<TransactionView>::empty());
        }
        r
    }

    /// Find the position of the user called `name`, which must already be in
    /// normal form to match.
    pub fn find_user(&self, name: &String) -> (r: Option<usize>)
        ensures
            match r {
                Some(i) => i < self@.users.len() && self@.users[i as int].username == name@,
                None => !contains_username(self@.users, name@),
            },
    {
        let n = self.users.len();
        let mut i: usize = 0;
        while i < n
            invariant
                n == self@.users.len(),
                i <= n,
                forall|j: int| 0 <= j < i ==> self@.users[j].username != name@,
            decreases n - i,
        {
            if self.users[i].username == *name {
                return Some(i);
            }
            i += 1;
        }
        None
    }

    /// Find the position of the session keyed by `token`.
    pub fn find_session(&self, token: &String) -> (r: Option<usize>)
        ensures
            match r {
                Some(i) => i < self@.sessions.len() && self@.sessions[i as int].token == token@,
                None => !contains_token(self@.sessions, token@),
            },
    {
        let n = self.sessions.len();
        let mut i: usize = 0;
        while i < n
            invariant
                n == self@.sessions.len(),
                i <= n,
                forall|j: int| 0 <= j < i ==> self@.sessions[j].token != token@,
            decreases n - i,
        {
            if self.sessions[i].token == *token {
                return Some(i);
            }
            i += 1;
        }
        None
    }

    /// Find the position of the transaction keyed by `id`.
    pub fn find_transaction(&self, id: &String) -> (r: Option<usize>)
        ensures
            match r {
                Some(i) => i < self@.transactions.len() && self@.transactions[i as int].id == id@,
                None => !contains_transaction(self@.transactions, id@),
            },
    {
        let n = self.transactions.len();
        let mut i: usize = 0;
        while i < n
            invariant
                n == self@.transactions.len(),
                i <= n,
                forall|j: int| 0 <= j < i ==> self@.transactions[j].id != id@,
            decreases n - i,
        {
            if self.transactions[i].id == *id {
                return Some(i);
            }
            i += 1;
        }
        None
    }
}

} // verus!
