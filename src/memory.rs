//! An in-memory store holding the four tables, answering the engine's
//! queries exactly as `respond` describes.
use vstd::prelude::*;
use vstd::pervasive::VecAdditionalExecFns;
use crate::introspect::{introspection_from, introspection_of};
use crate::models::Introspection;
use crate::store::{
    client_fits, client_has_id, client_lookup, clients_with_id, code_fits, code_lookup, collides,
    lemma_filter_first, lemma_filter_step, lemma_filter_whole, other_code, overwritten, respond,
    token_fits, token_lookup, tokens_matching, user_fits, user_has_id, user_lookup, users_with_id,
    with_token, without_code, Answer, ClientRecord, CodeRecord, Query, StoreView, TokenMatch,
    TokenRecord, TokenRow, UserRecord,
};

verus! {

pub struct MemoryStore {
    clients: Vec<ClientRecord>,
    users: Vec<UserRecord>,
    codes: Vec<CodeRecord>,
    tokens: Vec<TokenRecord>,
}

impl View for MemoryStore {
    type V = StoreView;

    closed spec fn view(&self) -> StoreView {
        StoreView {
            clients: self.clients@.map_values(|c: ClientRecord| c@),
            users: self.users@.map_values(|u: UserRecord| u@),
            codes: self.codes@.map_values(|c: CodeRecord| c@),
            tokens: self.tokens@.map_values(|t: TokenRecord| t@),
        }
    }
}

impl MemoryStore {
    /// A store with empty tables.
    pub fn new() -> (r: MemoryStore)
        ensures
            r@.clients.len() == 0,
            r@.users.len() == 0,
            r@.codes.len() == 0,
            r@.tokens.len() == 0,
    {
        MemoryStore { clients: Vec::new(), users: Vec::new(), codes: Vec::new(), tokens: Vec::new() }
    }

    pub fn add_client(&mut self, client: ClientRecord)
        ensures
            final(self)@ == (StoreView { clients: old(self)@.clients.push(client@), ..old(self)@ }),
    {
        self.clients.push(client);
        assert(self@.clients =~= old(self)@.clients.push(client@));
    }

    pub fn add_user(&mut self, user: UserRecord)
        ensures
            final(self)@ == (StoreView { users: old(self)@.users.push(user@), ..old(self)@ }),
    {
        self.users.push(user);
        assert(self@.users =~= old(self)@.users.push(user@));
    }

    pub fn add_code(&mut self, code: CodeRecord)
        ensures
            final(self)@ == (StoreView { codes: old(self)@.codes.push(code@), ..old(self)@ }),
    {
        self.codes.push(code);
        assert(self@.codes =~= old(self)@.codes.push(code@));
    }

    /// The client whose identity and secret both match, if exactly one does.
    pub fn validate_client_credentials(&self, client_id: &String, secret: &String) -> (r: Option<u128>)
        ensures
            r == client_lookup(self@, client_id@, secret@),
    {
        let ghost rows = self@.clients;
        let ghost pred = client_fits(client_id@, secret@);
        let mut count: usize = 0;
        let mut found: u128 = 0;
        let mut i: usize = 0;
        while i < self.clients.len()
            invariant
                rows == self@.clients,
                pred == client_fits(client_id@, secret@),
                i <= rows.len(),
                count == rows.subrange(0, i as int).filter(pred).len(),
                count > 0 ==> found == rows.subrange(0, i as int).filter(pred)[0].id,
            decreases rows.len() - i,
        {
            let c = &self.clients[i];
            proof {
                lemma_filter_step(rows, i as int, pred);
            }
            if c.client_id == *client_id && c.client_secret == *secret {
                if count == 0 {
                    found = c.id;
                }
                count = count + 1;
            }
            i = i + 1;
        }
        proof {
            lemma_filter_whole(rows, pred);
        }
        if count == 1 {
            Some(found)
        } else {
            None
        }
    }

    /// The user whose username and password both match, if exactly one does.
    pub fn validate_password_credentials(&self, username: &String, password: &String) -> (r: Option<u128>)
        ensures
            r == user_lookup(self@, username@, password@),
    {
        let ghost rows = self@.users;
        let ghost pred = user_fits(username@, password@);
        let mut count: usize = 0;
        let mut found: u128 = 0;
        let mut i: usize = 0;
        while i < self.users.len()
            invariant
                rows == self@.users,
                pred == user_fits(username@, password@),
                i <= rows.len(),
                count == rows.subrange(0, i as int).filter(pred).len(),
                count > 0 ==> found == rows.subrange(0, i as int).filter(pred)[0].id,
            decreases rows.len() - i,
        {
            let u = &self.users[i];
            proof {
                lemma_filter_step(rows, i as int, pred);
            }
            if u.username == *username && u.password == *password {
                if count == 0 {
                    found = u.id;
                }
                count = count + 1;
            }
            i = i + 1;
        }
        proof {
            lemma_filter_whole(rows, pred);
        }
        if count == 1 {
            Some(found)
        } else {
            None
        }
    }

    /// The user of the code stored with this challenge, if exactly one row
    /// matches.
    pub fn validate_code(&self, code: &String, challenge: &String) -> (r: Option<u128>)
        ensures
            r == code_lookup(self@, code@, challenge@),
    {
        let ghost rows = self@.codes;
        let ghost pred = code_fits(code@, challenge@);
        let mut count: usize = 0;
        let mut found: u128 = 0;
        let mut i: usize = 0;
        while i < self.codes.len()
            invariant
                rows == self@.codes,
                pred == code_fits(code@, challenge@),
                i <= rows.len(),
                count == rows.subrange(0, i as int).filter(pred).len(),
                count > 0 ==> found == rows.subrange(0, i as int).filter(pred)[0].user_id,
            decreases rows.len() - i,
        {
            let c = &self.codes[i];
            proof {
                lemma_filter_step(rows, i as int, pred);
            }
            if c.code == *code && c.pcke_hash == *challenge {
                if count == 0 {
                    found = c.user_id;
                }
                count = count + 1;
            }
            i = i + 1;
        }
        proof {
            lemma_filter_whole(rows, pred);
        }
        if count == 1 {
            Some(found)
        } else {
            None
        }
    }

    /// Removes every row of the code, whatever its challenge.
    pub fn delete_code(&mut self, code: &String)
        ensures
            final(self)@ == without_code(old(self)@, code@),
    {
        let ghost rows = old(self)@.codes;
        let ghost pred = other_code(code@);
        let mut kept: Vec<CodeRecord> = Vec::new();
        let mut i: usize = 0;
        while i < self.codes.len()
            invariant
                rows == self@.codes,
                pred == other_code(code@),
                i <= rows.len(),
                kept@.map_values(|c: CodeRecord| c@) == rows.subrange(0, i as int).filter(pred),
            decreases rows.len() - i,
        {
            let c = &self.codes[i];
            proof {
                lemma_filter_step(rows, i as int, pred);
            }
            if c.code != *code {
                let ghost before = kept@;
                kept.push(CodeRecord {
                    code: c.code.clone(),
                    user_id: c.user_id,
                    pcke_hash: c.pcke_hash.clone(),
                    creation_time: c.creation_time,
                });
                assert(kept@.map_values(|c: CodeRecord| c@) =~= before.map_values(|c: CodeRecord| c@).push(rows[i as int]));
            }
            i = i + 1;
        }
        proof {
            lemma_filter_whole(rows, pred);
        }
        self.codes = kept;
        assert(self@ =~= without_code(old(self)@, code@));
    }

    /// Upserts a token row on the uniqueness constraint over (user, client).
    pub fn upsert_token(&mut self, record: TokenRecord)
        ensures
            final(self)@ == with_token(old(self)@, record@),
    {
        let ghost rows = old(self)@.tokens;
        let ghost new_row = record@;
        let mut hit = false;
        let mut i: usize = 0;
        while i < self.tokens.len()
            invariant
                rows == old(self)@.tokens,
                new_row == record@,
                self.clients == old(self).clients,
                self.users == old(self).users,
                self.codes == old(self).codes,
                i <= rows.len(),
                self.tokens@.len() == rows.len(),
                forall|j: int| 0 <= j < i ==> #[trigger] self@.tokens[j] == (if collides(rows[j], new_row) {
                    overwritten(rows[j], new_row)
                } else {
                    rows[j]
                }),
                forall|j: int| i <= j < rows.len() ==> #[trigger] self@.tokens[j] == rows[j],
                hit == exists|j: int| 0 <= j < i && collides(#[trigger] rows[j], new_row),
            decreases rows.len() - i,
        {
            let ghost before = self.tokens@;
            let ghost before_view = self@.tokens;
            let t = &self.tokens[i];
            assert(before_view[i as int] == rows[i as int]);
            assert(t@ == rows[i as int]);
            let clash = t.user_id.is_some() && t.user_id == record.user_id && t.client_id == record.client_id;
            assert(clash == collides(rows[i as int], new_row));
            if clash {
                let fresh = TokenRecord {
                    access_token: record.access_token.clone(),
                    expire_time: record.expire_time,
                    user_id: t.user_id,
                    client_id: t.client_id,
                    scope: crate::text::copy_text(&record.scope),
                    creation_time: record.creation_time,
                    token_type: t.token_type.clone(),
                    issuer: record.issuer.clone(),
                    device: record.device.clone(),
                };
                assert(fresh@ == overwritten(rows[i as int], new_row));
                self.tokens.set(i, fresh);
                hit = true;
            }
            proof {
                assert forall|j: int| 0 <= j <= i implies #[trigger] self@.tokens[j] == (if collides(rows[j], new_row) {
                    overwritten(rows[j], new_row)
                } else {
                    rows[j]
                }) by {
                    if j < i {
                        assert(self.tokens@[j] == before[j]);
                        assert(before_view[j] == before[j]@);
                    } else if clash {
                        assert(self.tokens@[j]@ == overwritten(rows[j], new_row));
                    } else {
                        assert(self.tokens@[j] == before[j]);
                    }
                }
                assert forall|j: int| i < j < rows.len() implies #[trigger] self@.tokens[j] == rows[j] by {
                    assert(self.tokens@[j] == before[j]);
                    assert(before_view[j] == before[j]@);
                }
                if clash {
                    assert(collides(rows[i as int], new_row));
                } else {
                    assert forall|j: int| 0 <= j < i + 1 && collides(#[trigger] rows[j], new_row) implies hit by {
                        if j == i {
                            assert(!collides(rows[i as int], new_row));
                        }
                    }
                }
            }
            i = i + 1;
        }
        if !hit {
            let ghost before = self.tokens@;
            let ghost before_view = self@.tokens;
            self.tokens.push(record);
            assert forall|j: int| 0 <= j < rows.len() implies self@.tokens[j] == rows[j] by {
                assert(self.tokens@[j] == before[j]);
                assert(before_view[j] == before[j]@);
                assert(!collides(rows[j], new_row));
            }
            assert(self@.tokens =~= rows.push(new_row));
        } else {
            assert(self@.tokens =~= rows.map_values(
                |r: TokenRow| if collides(r, new_row) { overwritten(r, new_row) } else { r },
            ));
        }
        assert(self@ =~= with_token(old(self)@, new_row));
    }

    fn first_token(&self, token: &String, client: u128) -> (r: Option<usize>)
        ensures
            r is None <==> tokens_matching(self@, token@, client).len() == 0,
            r matches Some(i) ==> i < self.tokens@.len() && tokens_matching(self@, token@, client)[0]
                == self@.tokens[i as int],
    {
        let ghost rows = self@.tokens;
        let ghost pred = token_fits(token@, client);
        let mut i: usize = 0;
        while i < self.tokens.len()
            invariant
                rows == self@.tokens,
                pred == token_fits(token@, client),
                i <= rows.len(),
                rows.subrange(0, i as int).filter(pred).len() == 0,
            decreases rows.len() - i,
        {
            proof {
                lemma_filter_step(rows, i as int, pred);
            }
            if self.tokens[i].access_token == *token && self.tokens[i].client_id == client {
                proof {
                    lemma_filter_first(rows, i as int, pred);
                }
                return Some(i);
            }
            i = i + 1;
        }
        proof {
            lemma_filter_whole(rows, pred);
        }
        None
    }

    fn first_client_with_id(&self, client: u128) -> (r: Option<usize>)
        ensures
            r is None <==> clients_with_id(self@, client).len() == 0,
            r matches Some(i) ==> i < self.clients@.len() && clients_with_id(self@, client)[0]
                == self@.clients[i as int],
    {
        let ghost rows = self@.clients;
        let ghost pred = client_has_id(client);
        let mut i: usize = 0;
        while i < self.clients.len()
            invariant
                rows == self@.clients,
                pred == client_has_id(client),
                i <= rows.len(),
                rows.subrange(0, i as int).filter(pred).len() == 0,
            decreases rows.len() - i,
        {
            proof {
                lemma_filter_step(rows, i as int, pred);
            }
            if self.clients[i].id == client {
                proof {
                    lemma_filter_first(rows, i as int, pred);
                }
                return Some(i);
            }
            i = i + 1;
        }
        proof {
            lemma_filter_whole(rows, pred);
        }
        None
    }

    fn first_user_with_id(&self, user: Option<u128>) -> (r: Option<usize>)
        ensures
            r is None <==> users_with_id(self@, user).len() == 0,
            r matches Some(i) ==> i < self.users@.len() && users_with_id(self@, user)[0]
                == self@.users[i as int],
    {
        let ghost rows = self@.users;
        let ghost pred = user_has_id(user);
        let mut i: usize = 0;
        while i < self.users.len()
            invariant
                rows == self@.users,
                pred == user_has_id(user),
                i <= rows.len(),
                rows.subrange(0, i as int).filter(pred).len() == 0,
            decreases rows.len() - i,
        {
            proof {
                lemma_filter_step(rows, i as int, pred);
            }
            if user == Some(self.users[i].id) {
                proof {
                    lemma_filter_first(rows, i as int, pred);
                }
                return Some(i);
            }
            i = i + 1;
        }
        proof {
            lemma_filter_whole(rows, pred);
        }
        None
    }

    /// The token row issued to this client, joined with the client and user.
    pub fn find_token(&self, token: &String, client: u128) -> (r: Option<TokenMatch>)
        ensures
            match r {
                Some(m) => token_lookup(self@, token@, client) == Some(m@),
                None => token_lookup(self@, token@, client) is None,
            },
    {
        let t = match self.first_token(token, client) {
            Some(i) => i,
            None => return None,
        };
        let c = match self.first_client_with_id(client) {
            Some(i) => i,
            None => return None,
        };
        let row = &self.tokens[t];
        let (username, user_id) = match self.first_user_with_id(row.user_id) {
            Some(u) => (Some(self.users[u].username.clone()), Some(self.users[u].id)),
            None => (None, None),
        };
        Some(TokenMatch {
            scope: crate::text::copy_text(&row.scope),
            expire_time: row.expire_time,
            creation_time: row.creation_time,
            username,
            user_id,
            client_id: self.clients[c].client_id.clone(),
            token_type: row.token_type.clone(),
            issuer: row.issuer.clone(),
        })
    }

    /// The introspection at `now` of a token issued to this client, or `None`
    /// when the client holds no such token.
    pub fn validate_access_token(&self, access_token: &String, client_db_id: u128, now: i64) -> (r: Option<Introspection>)
        ensures
            match r {
                Some(i) => token_lookup(self@, access_token@, client_db_id) matches Some(m) && i@
                    == introspection_of(m, now as int),
                None => token_lookup(self@, access_token@, client_db_id) is None,
            },
    {
        match self.find_token(access_token, client_db_id) {
            Some(m) => Some(introspection_from(&m, now)),
            None => None,
        }
    }

    /// Answers a query as the persisted store would.
    pub fn answer(&mut self, q: Query) -> (r: Answer)
        ensures
            (r@, final(self)@) == respond(old(self)@, q@),
    {
        match q {
            Query::FindClient { client_id, client_secret } => Answer::Id(
                self.validate_client_credentials(&client_id, &client_secret),
            ),
            Query::FindUser { username, password } => Answer::Id(
                self.validate_password_credentials(&username, &password),
            ),
            Query::FindCode { code, challenge } => Answer::Id(self.validate_code(&code, &challenge)),
            Query::SaveToken(record) => {
                self.upsert_token(record);
                Answer::Written
            },
            Query::DeleteCode(code) => {
                self.delete_code(&code);
                Answer::Written
            },
            Query::FindToken { access_token, client } => Answer::Token(self.find_token(&access_token, client)),
        }
    }
}

} // verus!
