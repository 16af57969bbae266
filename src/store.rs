//! The persisted tables, the queries the engine makes of them, and an
//! in-memory store that answers those queries.
use vstd::prelude::*;
use crate::text::copy_text;

verus! {

/// A row of the client table.
#[derive(Clone, Debug)]
pub struct ClientRecord {
    pub id: u128,
    pub client_id: String,
    pub client_secret: String,
    pub display_name: String,
}

pub struct ClientRow {
    pub id: u128,
    pub client_id: Seq<char>,
    pub client_secret: Seq<char>,
    pub display_name: Seq<char>,
}

impl View for ClientRecord {
    type V = ClientRow;

    open spec fn view(&self) -> ClientRow {
        ClientRow {
            id: self.id,
            client_id: self.client_id@,
            client_secret: self.client_secret@,
            display_name: self.display_name@,
        }
    }
}

/// A row of the user table.
#[derive(Clone, Debug)]
pub struct UserRecord {
    pub id: u128,
    pub username: String,
    pub password: String,
}

pub struct UserRow {
    pub id: u128,
    pub username: Seq<char>,
    pub password: Seq<char>,
}

impl View for UserRecord {
    type V = UserRow;

    open spec fn view(&self) -> UserRow {
        UserRow { id: self.id, username: self.username@, password: self.password@ }
    }
}

/// A row of the authorization-code table; `pcke_hash` is the PKCE challenge.
#[derive(Clone, Debug)]
pub struct CodeRecord {
    pub code: String,
    pub user_id: u128,
    pub pcke_hash: String,
    pub creation_time: i64,
}

pub struct CodeRow {
    pub code: Seq<char>,
    pub user_id: u128,
    pub pcke_hash: Seq<char>,
    pub creation_time: int,
}

impl View for CodeRecord {
    type V = CodeRow;

    open spec fn view(&self) -> CodeRow {
        CodeRow {
            code: self.code@,
            user_id: self.user_id,
            pcke_hash: self.pcke_hash@,
            creation_time: self.creation_time as int,
        }
    }
}

/// A row of the access-token table; times are seconds since the epoch.
#[derive(Clone, Debug)]
pub struct TokenRecord {
    pub access_token: String,
    pub expire_time: i64,
    pub user_id: Option<u128>,
    pub client_id: u128,
    pub scope: Option<String>,
    pub creation_time: i64,
    pub token_type: String,
    pub issuer: String,
    pub device: String,
}

pub struct TokenRow {
    pub access_token: Seq<char>,
    pub expire_time: int,
    pub user_id: Option<u128>,
    pub client_id: u128,
    pub scope: Option<Seq<char>>,
    pub creation_time: int,
    pub token_type: Seq<char>,
    pub issuer: Seq<char>,
    pub device: Seq<char>,
}

impl View for TokenRecord {
    type V = TokenRow;

    open spec fn view(&self) -> TokenRow {
        TokenRow {
            access_token: self.access_token@,
            expire_time: self.expire_time as int,
            user_id: self.user_id,
            client_id: self.client_id,
            scope: self.scope.deep_view(),
            creation_time: self.creation_time as int,
            token_type: self.token_type@,
            issuer: self.issuer@,
            device: self.device@,
        }
    }
}

impl TokenRecord {
    pub fn copy(&self) -> (r: TokenRecord)
        ensures
            r@ == self@,
    {
        TokenRecord {
            access_token: self.access_token.clone(),
            expire_time: self.expire_time,
            user_id: self.user_id,
            client_id: self.client_id,
            scope: copy_text(&self.scope),
            creation_time: self.creation_time,
            token_type: self.token_type.clone(),
            issuer: self.issuer.clone(),
            device: self.device.clone(),
        }
    }
}

/// A token row joined with its client and, when there is one, its user.
#[derive(Clone, Debug)]
pub struct TokenMatch {
    pub scope: Option<String>,
    pub expire_time: i64,
    pub creation_time: i64,
    pub username: Option<String>,
    pub user_id: Option<u128>,
    pub client_id: String,
    pub token_type: String,
    pub issuer: String,
}

pub struct TokenMatchView {
    pub scope: Option<Seq<char>>,
    pub expire_time: int,
    pub creation_time: int,
    pub username: Option<Seq<char>>,
    pub user_id: Option<u128>,
    pub client_id: Seq<char>,
    pub token_type: Seq<char>,
    pub issuer: Seq<char>,
}

impl View for TokenMatch {
    type V = TokenMatchView;

    open spec fn view(&self) -> TokenMatchView {
        TokenMatchView {
            scope: self.scope.deep_view(),
            expire_time: self.expire_time as int,
            creation_time: self.creation_time as int,
            username: self.username.deep_view(),
            user_id: self.user_id,
            client_id: self.client_id@,
            token_type: self.token_type@,
            issuer: self.issuer@,
        }
    }
}

/// The contents of the four tables.
pub struct StoreView {
    pub clients: Seq<ClientRow>,
    pub users: Seq<UserRow>,
    pub codes: Seq<CodeRow>,
    pub tokens: Seq<TokenRow>,
}

/// The clients whose identity and secret are both the given ones.
pub open spec fn client_fits(client_id: Seq<char>, secret: Seq<char>) -> spec_fn(ClientRow) -> bool {
    |c: ClientRow| c.client_id == client_id && c.client_secret == secret
}

pub open spec fn clients_matching(db: StoreView, client_id: Seq<char>, secret: Seq<char>) -> Seq<ClientRow> {
    db.clients.filter(client_fits(client_id, secret))
}

/// The client authenticated by an identity and a secret: the one matching
/// row, if exactly one matches.
pub open spec fn client_lookup(db: StoreView, client_id: Seq<char>, secret: Seq<char>) -> Option<u128> {
    let m = clients_matching(db, client_id, secret);
    if m.len() == 1 { Some(m[0].id) } else { None }
}

pub open spec fn user_fits(username: Seq<char>, password: Seq<char>) -> spec_fn(UserRow) -> bool {
    |u: UserRow| u.username == username && u.password == password
}

pub open spec fn users_matching(db: StoreView, username: Seq<char>, password: Seq<char>) -> Seq<UserRow> {
    db.users.filter(user_fits(username, password))
}

/// The user authenticated by a username and a password, if exactly one row
/// matches.
pub open spec fn user_lookup(db: StoreView, username: Seq<char>, password: Seq<char>) -> Option<u128> {
    let m = users_matching(db, username, password);
    if m.len() == 1 { Some(m[0].id) } else { None }
}

pub open spec fn code_fits(code: Seq<char>, challenge: Seq<char>) -> spec_fn(CodeRow) -> bool {
    |c: CodeRow| c.code == code && c.pcke_hash == challenge
}

pub open spec fn codes_matching(db: StoreView, code: Seq<char>, challenge: Seq<char>) -> Seq<CodeRow> {
    db.codes.filter(code_fits(code, challenge))
}

/// The user of a code stored with the given challenge, if exactly one row
/// matches.
pub open spec fn code_lookup(db: StoreView, code: Seq<char>, challenge: Seq<char>) -> Option<u128> {
    let m = codes_matching(db, code, challenge);
    if m.len() == 1 { Some(m[0].user_id) } else { None }
}

pub open spec fn other_code(code: Seq<char>) -> spec_fn(CodeRow) -> bool {
    |c: CodeRow| c.code != code
}

/// The store with every row of the code removed.
pub open spec fn without_code(db: StoreView, code: Seq<char>) -> StoreView {
    StoreView { codes: db.codes.filter(other_code(code)), ..db }
}

/// Whether a stored row and a new one collide on the uniqueness constraint
/// over (user, client). A row without a user collides with none, as a null
/// does in a unique constraint.
pub open spec fn collides(old_row: TokenRow, new_row: TokenRow) -> bool {
    old_row.user_id is Some && old_row.user_id == new_row.user_id && old_row.client_id == new_row.client_id
}

/// The row that an upsert leaves where it collides: the new token, expiry,
/// creation time, scope, issuer and device over the old row.
pub open spec fn overwritten(old_row: TokenRow, new_row: TokenRow) -> TokenRow {
    TokenRow { user_id: old_row.user_id, client_id: old_row.client_id, token_type: old_row.token_type, ..new_row }
}

/// Token rows after an upsert of `new_row`: colliding rows are overwritten;
/// without a collision the row is added.
pub open spec fn upserted(rows: Seq<TokenRow>, new_row: TokenRow) -> Seq<TokenRow> {
    if exists|i: int| 0 <= i < rows.len() && collides(#[trigger] rows[i], new_row) {
        rows.map_values(|r: TokenRow| if collides(r, new_row) { overwritten(r, new_row) } else { r })
    } else {
        rows.push(new_row)
    }
}

pub open spec fn with_token(db: StoreView, new_row: TokenRow) -> StoreView {
    StoreView { tokens: upserted(db.tokens, new_row), ..db }
}

pub open spec fn token_fits(token: Seq<char>, client: u128) -> spec_fn(TokenRow) -> bool {
    |t: TokenRow| t.access_token == token && t.client_id == client
}

pub open spec fn tokens_matching(db: StoreView, token: Seq<char>, client: u128) -> Seq<TokenRow> {
    db.tokens.filter(token_fits(token, client))
}

pub open spec fn client_has_id(client: u128) -> spec_fn(ClientRow) -> bool {
    |c: ClientRow| c.id == client
}

pub open spec fn clients_with_id(db: StoreView, client: u128) -> Seq<ClientRow> {
    db.clients.filter(client_has_id(client))
}

pub open spec fn user_has_id(user: Option<u128>) -> spec_fn(UserRow) -> bool {
    |u: UserRow| user == Some(u.id)
}

pub open spec fn users_with_id(db: StoreView, user: Option<u128>) -> Seq<UserRow> {
    db.users.filter(user_has_id(user))
}

/// The row of a token issued to a client, joined with the client and the
/// token's user: the first match, or `None` when the token is unknown to
/// that client.
pub open spec fn token_lookup(db: StoreView, token: Seq<char>, client: u128) -> Option<TokenMatchView> {
    let hits = tokens_matching(db, token, client);
    let owners = clients_with_id(db, client);
    if hits.len() == 0 || owners.len() == 0 {
        None
    } else {
        let row = hits[0];
        let users = users_with_id(db, row.user_id);
        Some(TokenMatchView {
            scope: row.scope,
            expire_time: row.expire_time,
            creation_time: row.creation_time,
            username: if users.len() == 0 { None } else { Some(users[0].username) },
            user_id: if users.len() == 0 { None } else { Some(users[0].id) },
            client_id: owners[0].client_id,
            token_type: row.token_type,
            issuer: row.issuer,
        })
    }
}


/// A question to the store, or a write to it.
#[derive(Clone, Debug)]
pub enum Query {
    FindClient { client_id: String, client_secret: String },
    FindUser { username: String, password: String },
    FindCode { code: String, challenge: String },
    SaveToken(TokenRecord),
    DeleteCode(String),
    FindToken { access_token: String, client: u128 },
}

pub enum QueryView {
    FindClient { client_id: Seq<char>, client_secret: Seq<char> },
    FindUser { username: Seq<char>, password: Seq<char> },
    FindCode { code: Seq<char>, challenge: Seq<char> },
    SaveToken(TokenRow),
    DeleteCode(Seq<char>),
    FindToken { access_token: Seq<char>, client: u128 },
}

impl View for Query {
    type V = QueryView;

    open spec fn view(&self) -> QueryView {
        match self {
            Query::FindClient { client_id, client_secret } => QueryView::FindClient {
                client_id: client_id@,
                client_secret: client_secret@,
            },
            Query::FindUser { username, password } => QueryView::FindUser {
                username: username@,
                password: password@,
            },
            Query::FindCode { code, challenge } => QueryView::FindCode { code: code@, challenge: challenge@ },
            Query::SaveToken(r) => QueryView::SaveToken(r@),
            Query::DeleteCode(c) => QueryView::DeleteCode(c@),
            Query::FindToken { access_token, client } => QueryView::FindToken {
                access_token: access_token@,
                client: *client,
            },
        }
    }
}

/// The store's answer to a query: the identifier found by a lookup, the
/// joined token row, or the acknowledgement of a write.
#[derive(Clone, Debug)]
pub enum Answer {
    Id(Option<u128>),
    Token(Option<TokenMatch>),
    Written,
}

pub enum AnswerView {
    Id(Option<u128>),
    Token(Option<TokenMatchView>),
    Written,
}

impl View for Answer {
    type V = AnswerView;

    open spec fn view(&self) -> AnswerView {
        match self {
            Answer::Id(id) => AnswerView::Id(*id),
            Answer::Token(m) => AnswerView::Token(
                match m {
                    Some(t) => Some(t@),
                    None => None,
                },
            ),
            Answer::Written => AnswerView::Written,
        }
    }
}

/// How the store answers a query, and what it holds afterwards.
pub open spec fn respond(db: StoreView, q: QueryView) -> (AnswerView, StoreView) {
    match q {
        QueryView::FindClient { client_id, client_secret } => (
            AnswerView::Id(client_lookup(db, client_id, client_secret)),
            db,
        ),
        QueryView::FindUser { username, password } => (AnswerView::Id(user_lookup(db, username, password)), db),
        QueryView::FindCode { code, challenge } => (AnswerView::Id(code_lookup(db, code, challenge)), db),
        QueryView::SaveToken(row) => (AnswerView::Written, with_token(db, row)),
        QueryView::DeleteCode(code) => (AnswerView::Written, without_code(db, code)),
        QueryView::FindToken { access_token, client } => (
            AnswerView::Token(token_lookup(db, access_token, client)),
            db,
        ),
    }
}

pub proof fn lemma_filter_step<T>(s: Seq<T>, i: int, pred: spec_fn(T) -> bool)
    requires
        0 <= i < s.len(),
    ensures
        s.subrange(0, i + 1).filter(pred) == if pred(s[i]) {
            s.subrange(0, i).filter(pred).push(s[i])
        } else {
            s.subrange(0, i).filter(pred)
        },
        s.subrange(0, i).filter(pred).len() <= i,
{
    reveal(Seq::filter);
    assert(s.subrange(0, i + 1).drop_last() =~= s.subrange(0, i));
    s.subrange(0, i).lemma_filter_len(pred);
}

pub proof fn lemma_filter_whole<T>(s: Seq<T>, pred: spec_fn(T) -> bool)
    ensures
        s.subrange(0, s.len() as int).filter(pred) == s.filter(pred),
{
    assert(s.subrange(0, s.len() as int) =~= s);
}

/// A match at `i` with none before it is the first element of the filter.
pub proof fn lemma_filter_first<T>(s: Seq<T>, i: int, pred: spec_fn(T) -> bool)
    requires
        0 <= i < s.len(),
        s.subrange(0, i).filter(pred).len() == 0,
        pred(s[i]),
    ensures
        s.filter(pred).len() > 0,
        s.filter(pred)[0] == s[i],
{
    lemma_filter_step(s, i, pred);
    let a = s.subrange(0, i + 1);
    let b = s.subrange(i + 1, s.len() as int);
    assert(s =~= a + b);
    Seq::filter_distributes_over_add(a, b, pred);
}


/// No element satisfies the predicate: the filter is empty.
pub proof fn lemma_filter_none<T>(s: Seq<T>, pred: spec_fn(T) -> bool)
    requires
        forall|i: int| 0 <= i < s.len() ==> !pred(#[trigger] s[i]),
    ensures
        s.filter(pred).len() == 0,
    decreases s.len(),
{
    reveal(Seq::filter);
    if s.len() > 0 {
        let init = s.drop_last();
        assert forall|i: int| 0 <= i < init.len() implies !pred(#[trigger] init[i]) by {
            assert(init[i] == s[i]);
        }
        lemma_filter_none(init, pred);
        assert(!pred(s[s.len() - 1]));
    }
}

/// Each element of the filter satisfies the predicate and comes from the
/// sequence.
pub proof fn lemma_filter_member<T>(s: Seq<T>, pred: spec_fn(T) -> bool, k: int)
    requires
        0 <= k < s.filter(pred).len(),
    ensures
        pred(s.filter(pred)[k]),
        exists|j: int| 0 <= j < s.len() && s[j] == s.filter(pred)[k],
    decreases s.len(),
{
    reveal(Seq::filter);
    let init = s.drop_last();
    init.lemma_filter_len(pred);
    if k < init.filter(pred).len() {
        lemma_filter_member(init, pred, k);
        let j = choose|j: int| 0 <= j < init.len() && init[j] == init.filter(pred)[k];
        assert(s[j] == s.filter(pred)[k]);
    } else {
        assert(s[s.len() - 1] == s.filter(pred)[k]);
    }
}

/// An element that satisfies the predicate makes the filter non-empty.
pub proof fn lemma_filter_some<T>(s: Seq<T>, pred: spec_fn(T) -> bool, i: int)
    requires
        0 <= i < s.len(),
        pred(s[i]),
    ensures
        s.filter(pred).len() > 0,
{
    s.lemma_filter_contains(pred, i);
}

/// Each row after an upsert is an untouched row that does not collide, or
/// carries the new token, expiry, user and client.
pub proof fn lemma_upserted_rows(rows: Seq<TokenRow>, new_row: TokenRow, j: int)
    requires
        0 <= j < upserted(rows, new_row).len(),
    ensures
        ({
            let r = upserted(rows, new_row)[j];
            (j < rows.len() && !collides(rows[j], new_row) && r == rows[j]) || (r.access_token
                == new_row.access_token && r.expire_time == new_row.expire_time && r.user_id
                == new_row.user_id && r.client_id == new_row.client_id)
        }),
{
}

/// After an upsert some row carries the new token, expiry, user and client.
pub proof fn lemma_upserted_has(rows: Seq<TokenRow>, new_row: TokenRow)
    ensures
        exists|j: int|
            0 <= j < upserted(rows, new_row).len() && (#[trigger] upserted(rows, new_row)[j]).access_token
                == new_row.access_token && upserted(rows, new_row)[j].expire_time == new_row.expire_time
                && upserted(rows, new_row)[j].user_id == new_row.user_id && upserted(rows, new_row)[j].client_id
                == new_row.client_id,
{
    let res = upserted(rows, new_row);
    if exists|i: int| 0 <= i < rows.len() && collides(#[trigger] rows[i], new_row) {
        let i = choose|i: int| 0 <= i < rows.len() && collides(#[trigger] rows[i], new_row);
        assert(res[i] == overwritten(rows[i], new_row));
    } else {
        assert(res[rows.len() as int] == new_row);
    }
}

} // verus!
