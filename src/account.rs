use vstd::prelude::*;

verus! {

/// An identity record.
pub struct Account {
    /// The unique login key.
    pub identifier: String,
    pub first_name: String,
    pub last_name: String,
    /// The encoded password hash; never the password itself.
    pub credential_hash: String,
    /// The pending recovery code, present only while a recovery is in flight.
    pub recovery_code: Option<String>,
}

/// The mathematical value of an [`Account`].
pub struct AccountView {
    pub identifier: Seq<char>,
    pub first_name: Seq<char>,
    pub last_name: Seq<char>,
    pub credential_hash: Seq<char>,
    pub recovery_code: Option<Seq<char>>,
}

pub open spec fn code_view(c: Option<String>) -> Option<Seq<char>> {
    match c {
        Some(s) => Some(s@),
        None => None,
    }
}

impl View for Account {
    type V = AccountView;

    open spec fn view(&self) -> AccountView {
        AccountView {
            identifier: self.identifier@,
            first_name: self.first_name@,
            last_name: self.last_name@,
            credential_hash: self.credential_hash@,
            recovery_code: code_view(self.recovery_code),
        }
    }
}

/// A repository rejects an insert whose identifier is already taken.
#[derive(Debug, Clone, Copy, PartialEq, Eq, Structural)]
pub enum StoreError {
    DuplicateKey,
}

/// The map from identifier to account that a sequence of records stands for.
pub open spec fn records_map(s: Seq<AccountView>) -> Map<Seq<char>, AccountView>
    decreases s.len(),
{
    if s.len() == 0 {
        Map::empty()
    } else {
        records_map(s.drop_last()).insert(s.last().identifier, s.last())
    }
}

/// No two records share an identifier.
pub open spec fn unique_identifiers(s: Seq<AccountView>) -> bool {
    forall|i: int, j: int|
        0 <= i < s.len() && 0 <= j < s.len() && i != j ==> #[trigger] s[i].identifier
            != #[trigger] s[j].identifier
}

proof fn lemma_unique_drop_last(s: Seq<AccountView>)
    requires
        unique_identifiers(s),
        s.len() > 0,
    ensures
        unique_identifiers(s.drop_last()),
{
    let t = s.drop_last();
    assert forall|a: int, b: int|
        0 <= a < t.len() && 0 <= b < t.len() && a != b implies #[trigger] t[a].identifier
        != #[trigger] t[b].identifier by {
        assert(t[a] == s[a] && t[b] == s[b]);
    }
}

proof fn lemma_records_map_domain(s: Seq<AccountView>, id: Seq<char>)
    ensures
        records_map(s).contains_key(id) <==> exists|i: int|
            0 <= i < s.len() && #[trigger] s[i].identifier == id,
    decreases s.len(),
{
    if s.len() > 0 {
        lemma_records_map_domain(s.drop_last(), id);
        if records_map(s).contains_key(id) && s.last().identifier != id {
            let i = choose|i: int| 0 <= i < s.len() - 1 && #[trigger] s.drop_last()[i].identifier == id;
            assert(s[i].identifier == id);
        }
        if exists|i: int| 0 <= i < s.len() && #[trigger] s[i].identifier == id {
            let i = choose|i: int| 0 <= i < s.len() && #[trigger] s[i].identifier == id;
            if i < s.len() - 1 {
                assert(s.drop_last()[i].identifier == id);
            }
        }
    }
}

proof fn lemma_records_map_at(s: Seq<AccountView>, i: int)
    requires
        unique_identifiers(s),
        0 <= i < s.len(),
    ensures
        records_map(s).contains_key(s[i].identifier),
        records_map(s)[s[i].identifier] == s[i],
    decreases s.len(),
{
    if i < s.len() - 1 {
        let t = s.drop_last();
        assert(t[i] == s[i]);
        lemma_unique_drop_last(s);
        lemma_records_map_at(t, i);
        assert(s[i].identifier != s[s.len() - 1].identifier);
    }
}

proof fn lemma_records_map_update(s: Seq<AccountView>, i: int, v: AccountView)
    requires
        unique_identifiers(s),
        0 <= i < s.len(),
        v.identifier == s[i].identifier,
    ensures
        unique_identifiers(s.update(i, v)),
        records_map(s.update(i, v)) == records_map(s).insert(v.identifier, v),
    decreases s.len(),
{
    let u = s.update(i, v);
    assert(unique_identifiers(u)) by {
        assert forall|a: int, b: int|
            0 <= a < u.len() && 0 <= b < u.len() && a != b implies #[trigger] u[a].identifier
            != #[trigger] u[b].identifier by {
            assert(u[a].identifier == s[a].identifier && u[b].identifier == s[b].identifier);
        }
    }
    if i == s.len() - 1 {
        assert(u.drop_last() =~= s.drop_last());
        assert(records_map(u) =~= records_map(s).insert(v.identifier, v));
    } else {
        let t = s.drop_last();
        lemma_unique_drop_last(s);
        lemma_records_map_update(t, i, v);
        assert(u.drop_last() =~= t.update(i, v));
        assert(s.last().identifier != v.identifier);
        assert(records_map(u) =~= records_map(s).insert(v.identifier, v));
    }
}

/// The account repository: a set of accounts keyed by a unique identifier.
pub struct AccountStore {
    accounts: Vec<Account>,
}

impl AccountStore {
    /// The records, in the order they were inserted.
    pub closed spec fn records(&self) -> Seq<AccountView> {
        self.accounts@.map_values(|a: Account| a@)
    }

    /// Well-formedness: identifiers are unique.
    pub closed spec fn wf(&self) -> bool {
        unique_identifiers(self.records())
    }

    /// An empty repository.
    pub fn new() -> (s: AccountStore)
        ensures
            s.wf(),
            s@ == Map::<Seq<char>, AccountView>::empty(),
            s@.dom().finite(),
    {
        let s = AccountStore { accounts: Vec::new() };
        assert(s.records() =~= Seq::<AccountView>::empty());
        s
    }

    /// Number of accounts held.
    pub fn len(&self) -> (n: usize)
        requires
            self.wf(),
        ensures
            self@.dom().finite(),
            n == self@.len(),
    {
        proof {
            self.lemma_len();
        }
        self.accounts.len()
    }

    proof fn lemma_len(&self)
        requires
            self.wf(),
        ensures
            self@.dom().finite(),
            self@.len() == self.accounts@.len(),
    {
        lemma_unique_map_len(self.records());
    }

    /// A well-formed store holds finitely many accounts.
    pub proof fn lemma_view_finite(&self)
        requires
            self.wf(),
        ensures
            self@.dom().finite(),
    {
        lemma_unique_map_len(self.records());
    }

    /// Position of the account with identifier `id`, if any.
    fn position(&self, id: &str) -> (r: Option<usize>)
        requires
            self.wf(),
        ensures
            match r {
                Some(i) => i < self.accounts@.len() && self.records()[i as int].identifier == id@
                    && self@.contains_key(id@) && self@[id@] == self.records()[i as int],
                None => !self@.contains_key(id@),
            },
    {
        let key = id.to_owned();
        let mut i: usize = 0;
        while i < self.accounts.len()
            invariant
                self.wf(),
                key@ == id@,
                i <= self.accounts@.len(),
                forall|k: int| 0 <= k < i ==> #[trigger] self.records()[k].identifier != id@,
            decreases self.accounts@.len() - i,
        {
            proof {
                assert(self.records()[i as int] == self.accounts@[i as int]@);
            }
            if self.accounts[i].identifier == key {
                proof {
                    lemma_records_map_at(self.records(), i as int);
                }
                return Some(i);
            }
            i = i + 1;
        }
        proof {
            lemma_records_map_domain(self.records(), id@);
        }
        None
    }

    /// Exact-match lookup by identifier.
    pub fn find_by_identifier(&self, id: &str) -> (r: Option<&Account>)
        requires
            self.wf(),
        ensures
            match r {
                Some(a) => self@.contains_key(id@) && self@[id@] == a@,
                None => !self@.contains_key(id@),
            },
    {
        match self.position(id) {
            Some(i) => Some(&self.accounts[i]),
            None => None,
        }
    }

    /// Adds `account`; the existence check and the write are one step, so an
    /// identifier can never be inserted twice.
    pub fn insert(&mut self, account: Account) -> (r: Result<(), StoreError>)
        requires
            old(self).wf(),
        ensures
            final(self).wf(),
            final(self)@.dom().finite(),
            old(self)@.contains_key(account.identifier@) ==> r == Err::<(), StoreError>(
                StoreError::DuplicateKey,
            ) && final(self)@ == old(self)@,
            !old(self)@.contains_key(account.identifier@) ==> r is Ok && final(self)@ == old(
                self,
            )@.insert(account.identifier@, account@),
    {
        proof {
            lemma_unique_map_len(self.records());
        }
        match self.position(account.identifier.as_str()) {
            Some(_) => Err(StoreError::DuplicateKey),
            None => {
                let ghost before = self.records();
                let ghost v = account@;
                self.accounts.push(account);
                proof {
                    assert(self.records() =~= before.push(v));
                    assert(self.records().drop_last() =~= before);
                    lemma_records_map_domain(before, v.identifier);
                    assert forall|a: int, b: int|
                        0 <= a < self.records().len() && 0 <= b < self.records().len() && a
                            != b implies #[trigger] self.records()[a].identifier
                        != #[trigger] self.records()[b].identifier by {
                        if a < before.len() && b < before.len() {
                            assert(self.records()[a] == before[a]);
                            assert(self.records()[b] == before[b]);
                        } else if a < before.len() {
                            assert(self.records()[a] == before[a]);
                        } else {
                            assert(self.records()[b] == before[b]);
                        }
                    }
                    lemma_unique_map_len(self.records());
                }
                Ok(())
            },
        }
    }

    /// Replaces the record at `i` by `account`, which keeps its identifier.
    fn replace_at(&mut self, i: usize, account: Account)
        requires
            old(self).wf(),
            i < old(self).accounts@.len(),
            account.identifier@ == old(self).records()[i as int].identifier,
        ensures
            final(self).wf(),
            final(self)@.dom().finite(),
            final(self)@ == old(self)@.insert(account.identifier@, account@),
    {
        let ghost before = self.records();
        let ghost v = account@;
        self.accounts.set(i, account);
        proof {
            assert(self.records() =~= before.update(i as int, v));
            lemma_records_map_update(before, i as int, v);
            lemma_unique_map_len(self.records());
        }
    }

    /// Sets the pending recovery code of the account `id`, replacing any
    /// earlier one. Returns whether the account exists.
    pub fn set_recovery_code(&mut self, id: &str, code: String) -> (r: bool)
        requires
            old(self).wf(),
        ensures
            final(self).wf(),
            final(self)@.dom().finite(),
            r == old(self)@.contains_key(id@),
            r ==> final(self)@ == old(self)@.insert(
                id@,
                AccountView { recovery_code: Some(code@), ..old(self)@[id@] },
            ),
            !r ==> final(self)@ == old(self)@,
    {
        proof {
            lemma_unique_map_len(self.records());
        }
        match self.position(id) {
            Some(i) => {
                let a = &self.accounts[i];
                assert(self.records()[i as int] == a@);
                let updated = Account {
                    identifier: a.identifier.clone(),
                    first_name: a.first_name.clone(),
                    last_name: a.last_name.clone(),
                    credential_hash: a.credential_hash.clone(),
                    recovery_code: Some(code),
                };
                self.replace_at(i, updated);
                true
            },
            None => false,
        }
    }

    /// Sets a new credential hash and clears the recovery code of the account
    /// `id`, but only while `code` is still its pending recovery code; the
    /// check and the write are one step. Returns whether the update was made.
    pub fn reset_credential_if_code(&mut self, id: &str, code: &str, new_hash: String) -> (r:
        bool)
        requires
            old(self).wf(),
        ensures
            final(self).wf(),
            final(self)@.dom().finite(),
            r == (old(self)@.contains_key(id@) && old(self)@[id@].recovery_code == Some(code@)),
            r ==> final(self)@ == old(self)@.insert(
                id@,
                AccountView {
                    credential_hash: new_hash@,
                    recovery_code: None,
                    ..old(self)@[id@]
                },
            ),
            !r ==> final(self)@ == old(self)@,
    {
        proof {
            lemma_unique_map_len(self.records());
        }
        match self.position(id) {
            Some(i) => {
                let a = &self.accounts[i];
                assert(self.records()[i as int] == a@);
                let expected = code.to_owned();
                let pending = match &a.recovery_code {
                    Some(c) => *c == expected,
                    None => false,
                };
                if !pending {
                    return false;
                }
                let updated = Account {
                    identifier: a.identifier.clone(),
                    first_name: a.first_name.clone(),
                    last_name: a.last_name.clone(),
                    credential_hash: new_hash,
                    recovery_code: None,
                };
                self.replace_at(i, updated);
                true
            },
            None => false,
        }
    }
}

impl View for AccountStore {
    type V = Map<Seq<char>, AccountView>;

    closed spec fn view(&self) -> Map<Seq<char>, AccountView> {
        records_map(self.records())
    }
}

proof fn lemma_unique_map_len(s: Seq<AccountView>)
    requires
        unique_identifiers(s),
    ensures
        records_map(s).dom().finite(),
        records_map(s).len() == s.len(),
    decreases s.len(),
{
    if s.len() > 0 {
        let t = s.drop_last();
        lemma_unique_drop_last(s);
        lemma_unique_map_len(t);
        lemma_records_map_domain(t, s.last().identifier);
        if records_map(t).contains_key(s.last().identifier) {
            let i = choose|i: int| 0 <= i < t.len() && #[trigger] t[i].identifier == s.last().identifier;
            assert(s[i].identifier == s[s.len() - 1].identifier);
        }
    }
}

} // verus!
