use vstd::prelude::*;

use crate::data_stores::{Challenge, LoginAttemptId, TwoFACode, TwoFACodeStore, TwoFACodeStoreError};
use crate::email::Email;
use vstd::hash_map::StringHashMap;

verus! {

/// An in-memory challenge store: a hash map from the address string to the
/// pending attempt identifier and code. At most one challenge per address,
/// because the address is the key.
pub struct HashmapTwoFACodeStore {
    codes: StringHashMap<(LoginAttemptId, TwoFACode)>,
}

impl HashmapTwoFACodeStore {
    /// An empty store.
    pub fn new() -> (r: Self)
        ensures
            r.codes() == Map::<Seq<char>, Challenge>::empty(),
    {
        HashmapTwoFACodeStore { codes: StringHashMap::new() }
    }
}

impl Default for HashmapTwoFACodeStore {
    /// An empty store.
    fn default() -> (r: Self)
        ensures
            r.codes() == Map::<Seq<char>, Challenge>::empty(),
    {
        HashmapTwoFACodeStore::new()
    }
}

impl TwoFACodeStore for HashmapTwoFACodeStore {
    closed spec fn codes(&self) -> Map<Seq<char>, Challenge> {
        self.codes@.map_values(
            |p: (LoginAttemptId, TwoFACode)| Challenge { id: p.0@, code: p.1@ },
        )
    }

    open spec fn may_fault(&self) -> bool {
        false
    }

    fn add_code(&mut self, email: Email, login_attempt_id: LoginAttemptId, code: TwoFACode) -> (r:
        Result<(), TwoFACodeStoreError>)
        ensures
            r is Ok,
    {
        let key = email.to_owned_string();
        self.codes.insert(key, (login_attempt_id, code));
        proof {
            assert(self.codes() =~= old(self).codes().insert(
                email@,
                (Challenge { id: login_attempt_id@, code: code@ }),
            ));
        }
        Ok(())
    }

    fn get_code(&self, email: &Email) -> (r: Result<
        (LoginAttemptId, TwoFACode),
        TwoFACodeStoreError,
    >)
        ensures
            r is Ok <==> self.codes().contains_key(email@),
            r is Err ==> r == Err::<(LoginAttemptId, TwoFACode), TwoFACodeStoreError>(
                TwoFACodeStoreError::LoginAttemptIdNotFound,
            ),
    {
        match self.codes.get(email.as_str()) {
            Some(pair) => Ok((pair.0.clone(), pair.1.clone())),
            None => Err(TwoFACodeStoreError::LoginAttemptIdNotFound),
        }
    }

    fn remove_code(&mut self, email: &Email) -> (r: Result<(), TwoFACodeStoreError>)
        ensures
            r is Ok <==> old(self).codes().contains_key(email@),
            r is Err ==> r == Err::<(), TwoFACodeStoreError>(
                TwoFACodeStoreError::LoginAttemptIdNotFound,
            ),
    {
        if self.codes.contains_key(email.as_str()) {
            self.codes.remove(email.as_str());
            proof {
                assert(self.codes() =~= old(self).codes().remove(email@));
            }
            Ok(())
        } else {
            Err(TwoFACodeStoreError::LoginAttemptIdNotFound)
        }
    }
}

} // verus!
