use vstd::prelude::*;

verus! {

/// A 32-byte account identifier.
#[derive(Debug, Clone, Copy)]
pub struct AccountId {
    pub bytes: [u8; 32],
}

impl AccountId {
    pub fn new(bytes: [u8; 32]) -> (r: AccountId)
        ensures
            r.bytes@ == bytes@,
    {
        AccountId { bytes }
    }

    /// Byte-wise equality of two identifiers.
    pub fn same(&self, other: &AccountId) -> (r: bool)
        ensures
            r == (self.bytes@ == other.bytes@),
    {
        let mut i: usize = 0;
        while i < 32
            invariant
                i <= 32,
                self.bytes@.len() == 32,
                other.bytes@.len() == 32,
                forall|j: int| 0 <= j < i ==> self.bytes@[j] == other.bytes@[j],
            decreases 32 - i,
        {
            if self.bytes[i] != other.bytes[i] {
                return false;
            }
            i = i + 1;
        }
        assert(self.bytes@ =~= other.bytes@);
        true
    }
}

/// Errors of the opt-in messages.
#[derive(Debug, Clone, Copy, PartialEq, Eq, Structural)]
pub enum Error {
    /// The caller is already opted in.
    UserAlreadyOptedIn,
    /// The caller is not among the opted-in users.
    UserDoesNotExist,
}

/// Emitted when a user opts in.
#[derive(Debug, Clone, Copy)]
pub struct UserOptedIn {
    pub user: AccountId,
}

/// Emitted when a user opts out.
#[derive(Debug, Clone, Copy)]
pub struct UserOptedOut {
    pub user: AccountId,
}

/// The state of the opt-in contract: the users who opted in, each once.
/// The calling account is handed to each message, which returns the event to
/// emit.
pub struct Opt {
    users: Vec<AccountId>,
}

/// Some entry of `users` is the account `k`.
pub open spec fn lists(users: Seq<AccountId>, k: Seq<u8>) -> bool {
    exists|i: int| 0 <= i < users.len() && (#[trigger] users[i]).bytes@ == k
}

impl Opt {
    /// The identifiers of the opted-in users, in the order they opted in.
    pub closed spec fn users(&self) -> Seq<AccountId> {
        self.users@
    }

    /// Whether the account is opted in.
    pub open spec fn opted_in(&self, k: Seq<u8>) -> bool {
        lists(self.users(), k)
    }

    /// No account is listed twice.
    pub closed spec fn wf(&self) -> bool {
        forall|i: int, j: int|
            0 <= i < j < self.users@.len() ==> (#[trigger] self.users@[i]).bytes@ != (
            #[trigger] self.users@[j]).bytes@
    }

    /// A contract in which nobody is opted in.
    pub fn new() -> (r: Opt)
        ensures
            r.wf(),
            forall|k: Seq<u8>| !r.opted_in(k),
    {
        Opt { users: Vec::new() }
    }

    /// The same as `new`.
    pub fn default() -> (r: Opt)
        ensures
            r.wf(),
            forall|k: Seq<u8>| !r.opted_in(k),
    {
        Opt::new()
    }

    fn position(&self, caller: &AccountId) -> (r: Option<usize>)
        ensures
            match r {
                Some(i) => i < self.users@.len() && self.users@[i as int].bytes@ == caller.bytes@,
                None => !self.opted_in(caller.bytes@),
            },
    {
        let mut i: usize = 0;
        while i < self.users.len()
            invariant
                i <= self.users@.len(),
                forall|j: int| 0 <= j < i ==> (#[trigger] self.users@[j]).bytes@ != caller.bytes@,
            decreases self.users.len() - i,
        {
            if self.users[i].same(caller) {
                return Some(i);
            }
            i = i + 1;
        }
        None
    }

    /// Opts the caller in; fails where the caller is opted in already.
    pub fn opt_in(&mut self, caller: AccountId) -> (r: Result<UserOptedIn, Error>)
        requires
            old(self).wf(),
        ensures
            final(self).wf(),
            old(self).opted_in(caller.bytes@) ==> r == Err::<UserOptedIn, Error>(
                Error::UserAlreadyOptedIn,
            ) && final(self).users() == old(self).users(),
            !old(self).opted_in(caller.bytes@) ==> (r matches Ok(e) && e.user.bytes@
                == caller.bytes@) && forall|k: Seq<u8>|
                #![auto]
                final(self).opted_in(k) == (old(self).opted_in(k) || k == caller.bytes@),
    {
        match self.position(&caller) {
            Some(_) => Err(Error::UserAlreadyOptedIn),
            None => {
                let ghost before = self.users@;
                self.users.push(caller);
                assert forall|k: Seq<u8>|
                    #![auto]
                    lists(self.users@, k) == (lists(before, k) || k == caller.bytes@) by {
                    if lists(self.users@, k) {
                        let i = choose|i: int|
                            0 <= i < self.users@.len() && (#[trigger] self.users@[i]).bytes@ == k;
                        if i < before.len() {
                            assert(before[i] == self.users@[i]);
                        }
                    }
                    if lists(before, k) {
                        let i = choose|i: int|
                            0 <= i < before.len() && (#[trigger] before[i]).bytes@ == k;
                        assert(self.users@[i] == before[i]);
                    }
                    if k == caller.bytes@ {
                        assert(self.users@[before.len() as int] == caller);
                    }
                }
                Ok(UserOptedIn { user: caller })
            },
        }
    }

    /// Opts the caller out; fails where the caller is not opted in.
    pub fn opt_out(&mut self, caller: AccountId) -> (r: Result<UserOptedOut, Error>)
        requires
            old(self).wf(),
        ensures
            final(self).wf(),
            !old(self).opted_in(caller.bytes@) ==> r == Err::<UserOptedOut, Error>(
                Error::UserDoesNotExist,
            ) && final(self).users() == old(self).users(),
            old(self).opted_in(caller.bytes@) ==> (r matches Ok(e) && e.user.bytes@
                == caller.bytes@) && forall|k: Seq<u8>|
                #![auto]
                final(self).opted_in(k) == (old(self).opted_in(k) && k != caller.bytes@),
    {
        match self.position(&caller) {
            None => Err(Error::UserDoesNotExist),
            Some(p) => {
                let ghost before = self.users@;
                self.users.remove(p);
                assert forall|k: Seq<u8>|
                    #![auto]
                    lists(self.users@, k) == (lists(before, k) && k != caller.bytes@) by {
                    if lists(self.users@, k) {
                        let i = choose|i: int|
                            0 <= i < self.users@.len() && (#[trigger] self.users@[i]).bytes@ == k;
                        if i < p {
                            assert(self.users@[i] == before[i]);
                        } else {
                            assert(self.users@[i] == before[i + 1]);
                        }
                    }
                    if lists(before, k) && k != caller.bytes@ {
                        let i = choose|i: int|
                            0 <= i < before.len() && (#[trigger] before[i]).bytes@ == k;
                        if i < p {
                            assert(self.users@[i] == before[i]);
                        } else {
                            assert(self.users@[i - 1] == before[i]);
                        }
                    }
                }
                Ok(UserOptedOut { user: caller })
            },
        }
    }

    /// Whether the caller is opted in.
    pub fn is_user_opted_in(&self, caller: &AccountId) -> (r: bool)
        ensures
            r == self.opted_in(caller.bytes@),
    {
        self.position(caller).is_some()
    }

    /// The same as `is_user_opted_in`.
    pub fn get(&self, caller: &AccountId) -> (r: bool)
        ensures
            r == self.opted_in(caller.bytes@),
    {
        self.is_user_opted_in(caller)
    }
}

} // verus!
