use vstd::prelude::*;

use crate::data_stores::{UserStore, UserStoreError};
use crate::email::Email;
use crate::password::Password;
use crate::user::{User, UserModel};
use vstd::hash_map::StringHashMap;

verus! {

/// An in-memory user store: a hash map from the address string to the
/// record. Addresses are unique because they are the key.
pub struct HashmapUserStore {
    users: StringHashMap<User>,
}

impl HashmapUserStore {
    /// An empty store.
    pub fn new() -> (r: Self)
        ensures
            r.users() == Map::<Seq<char>, UserModel>::empty(),
    {
        HashmapUserStore { users: StringHashMap::new() }
    }
}

impl Default for HashmapUserStore {
    /// An empty store.
    fn default() -> (r: Self)
        ensures
            r.users() == Map::<Seq<char>, UserModel>::empty(),
    {
        HashmapUserStore::new()
    }
}

impl UserStore for HashmapUserStore {
    closed spec fn users(&self) -> Map<Seq<char>, UserModel> {
        self.users@.map_values(|u: User| u@)
    }

    open spec fn may_fault(&self) -> bool {
        false
    }

    fn add_user(&mut self, user: User) -> (r: Result<(), UserStoreError>)
        ensures
            r is Ok <==> !old(self).users().contains_key(user@.email),
            r is Err ==> r == Err::<(), UserStoreError>(UserStoreError::UserAlreadyExists),
    {
        if self.users.contains_key(user.email.as_str()) {
            return Err(UserStoreError::UserAlreadyExists);
        }
        let key = user.email.to_owned_string();
        self.users.insert(key, user);
        proof {
            assert(self.users() =~= old(self).users().insert(user@.email, user@));
        }
        Ok(())
    }

    fn get_user(&self, email: &Email) -> (r: Result<User, UserStoreError>)
        ensures
            r is Ok <==> self.users().contains_key(email@),
            r is Err ==> r == Err::<User, UserStoreError>(UserStoreError::UserNotFound),
    {
        match self.users.get(email.as_str()) {
            Some(u) => Ok(u.clone()),
            None => Err(UserStoreError::UserNotFound),
        }
    }

    fn validate_user(&self, email: &Email, password: &Password) -> (r: Result<
        (),
        UserStoreError,
    >)
        ensures
            r is Ok <==> (self.users().contains_key(email@) && self.users()[email@].password
                == password@),
            !self.users().contains_key(email@) ==> r == Err::<(), UserStoreError>(
                UserStoreError::UserNotFound,
            ),
            self.users().contains_key(email@) && self.users()[email@].password != password@
                ==> r == Err::<(), UserStoreError>(UserStoreError::InvalidCredentials),
    {
        match self.users.get(email.as_str()) {
            Some(u) => {
                if u.password == *password {
                    Ok(())
                } else {
                    Err(UserStoreError::InvalidCredentials)
                }
            },
            None => Err(UserStoreError::UserNotFound),
        }
    }
}

} // verus!
