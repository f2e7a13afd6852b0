//! The ledger-level model of the program: the set of live note accounts,
//! keyed by their derived address, and the three instruction handlers with
//! the account constraints the runtime enforces around the handler bodies.
//! Every instruction either succeeds with the documented effect or fails
//! with its error while leaving every account untouched.
use crate::error::ExecError;
use crate::note::Note;
use crate::note::NoteView;
use crate::note::delete_check;
use crate::note::update_check;
use crate::pda::derive_note_address;
use crate::pda::key_eq;
use crate::pda::pda_of;
use crate::text::create_check;
use vstd::prelude::*;

verus! {

/// The on-chain space reserved for a note account: discriminator, author
/// key, the two length-prefixed strings at their largest, and the two
/// timestamps.
pub const NOTE_ACCOUNT_SPACE: usize = 8 + 32 + (4 + 100) + (4 + 6000) + 8 + 8;

/// A live note account: its 32-byte address, the lamports funding its rent,
/// and the note it stores.
pub struct NoteAccount {
    pub address: Vec<u8>,
    pub lamports: u64,
    pub note: Note,
}

/// The mathematical value of a note account.
pub ghost struct AccountView {
    pub address: Seq<u8>,
    pub lamports: u64,
    pub note: NoteView,
}

impl View for NoteAccount {
    type V = AccountView;

    open spec fn view(&self) -> AccountView {
        AccountView { address: self.address@, lamports: self.lamports, note: self.note@ }
    }
}

/// The account set of CreateNote, in ABI order: the note account to be
/// initialized, and the author, a writable signer who pays the rent. The
/// system program, which performs the allocation, carries no state worth
/// modelling.
pub struct CreateNote {
    /// Address of the account to be initialized.
    pub note: Vec<u8>,
    /// The signer's 32-byte public key.
    pub author: Vec<u8>,
    /// The signer's lamport balance, debited for rent.
    pub author_lamports: u64,
}

/// The account set of UpdateNote: the note account and the signer.
pub struct UpdateNote {
    pub note: Vec<u8>,
    pub author: Vec<u8>,
}

/// The account set of DeleteNote: the note account to be closed, and the
/// author, a writable signer who receives the refund.
pub struct DeleteNote {
    pub note: Vec<u8>,
    pub author: Vec<u8>,
    /// The signer's lamport balance, credited with the refund.
    pub author_lamports: u64,
}

/// Well-formedness of an account set: every note is well-formed, every
/// address is 32 bytes, and no two accounts share an address.
pub open spec fn wf_accounts(s: Seq<AccountView>) -> bool {
    &&& forall|i: int|
        0 <= i < s.len() ==> (#[trigger] s[i]).note.wf() && s[i].address.len() == 32
    &&& forall|i: int, j: int|
        0 <= i < j < s.len() ==> (#[trigger] s[i]).address != (#[trigger] s[j]).address
}

/// Whether some account has the given address.
pub open spec fn has_addr(s: Seq<AccountView>, a: Seq<u8>) -> bool {
    exists|i: int| 0 <= i < s.len() && (#[trigger] s[i]).address == a
}

/// The index of the account with the given address; meaningful under
/// wf_accounts, where it is unique.
pub open spec fn idx_of(s: Seq<AccountView>, a: Seq<u8>) -> int {
    choose|i: int| 0 <= i < s.len() && (#[trigger] s[i]).address == a
}

/// Under distinct addresses, an index holding the address is the index that
/// idx_of picks.
pub proof fn lemma_idx_of(s: Seq<AccountView>, a: Seq<u8>, i: int)
    requires
        wf_accounts(s),
        0 <= i < s.len(),
        s[i].address == a,
    ensures
        has_addr(s, a),
        idx_of(s, a) == i,
{
    assert(has_addr(s, a));
    let j = idx_of(s, a);
    if i < j {
        assert(s[i].address != s[j].address);
    } else if j < i {
        assert(s[j].address != s[i].address);
    }
}

/// The address bound of the registry: every account sits at the address
/// derived from its own author and title.
pub open spec fn seeded(s: Seq<AccountView>) -> bool {
    forall|i: int|
        0 <= i < s.len() ==> pda_of((#[trigger] s[i]).note.author, s[i].note.title) == Some(
            s[i].address,
        )
}

/// The clock never lies before any recorded update: the ledger orders the
/// instructions touching an account, and the runtime clock is monotonic
/// along that order.
pub open spec fn clock_ok(s: Seq<AccountView>, now: i64) -> bool {
    forall|i: int| 0 <= i < s.len() ==> (#[trigger] s[i]).note.last_updated <= now
}

/// The CreateNote transition. Constraints run first: the supplied note
/// account must sit at the derived address, must not exist yet, and the
/// author must afford the rent. Then the handler body validates title and
/// content in declared order and populates the fresh account.
pub open spec fn spec_create(
    s: Seq<AccountView>,
    note_addr: Seq<u8>,
    author: Seq<u8>,
    author_lamports: u64,
    title: Seq<char>,
    content: Seq<char>,
    now: i64,
    rent: u64,
) -> Result<Seq<AccountView>, ExecError> {
    if pda_of(author, title) != Some(note_addr) {
        Err(ExecError::ConstraintSeeds)
    } else if has_addr(s, note_addr) {
        Err(ExecError::AccountAlreadyInitialized)
    } else if author_lamports < rent {
        Err(ExecError::InsufficientFunds)
    } else {
        match create_check(title, content) {
            Err(e) => Err(ExecError::Program(e)),
            Ok(()) => Ok(
                s.push(
                    AccountView {
                        address: note_addr,
                        lamports: rent,
                        note: NoteView {
                            author,
                            title,
                            content,
                            created_at: now,
                            last_updated: now,
                        },
                    },
                ),
            ),
        }
    }
}

/// The UpdateNote transition. The account must exist and sit at the address
/// derived from the signer's key and its own stored title; then the handler
/// body checks authorization and the new content, and replaces content and
/// last_updated alone.
pub open spec fn spec_update(
    s: Seq<AccountView>,
    note_addr: Seq<u8>,
    signer: Seq<u8>,
    content: Seq<char>,
    now: i64,
) -> Result<Seq<AccountView>, ExecError> {
    if !has_addr(s, note_addr) {
        Err(ExecError::AccountNotInitialized)
    } else {
        let i = idx_of(s, note_addr);
        let acc = s[i];
        if pda_of(signer, acc.note.title) != Some(note_addr) {
            Err(ExecError::ConstraintSeeds)
        } else {
            match update_check(acc.note, signer, content) {
                Err(e) => Err(ExecError::Program(e)),
                Ok(()) => Ok(
                    s.update(
                        i,
                        AccountView {
                            note: NoteView { content, last_updated: now, ..acc.note },
                            ..acc
                        },
                    ),
                ),
            }
        }
    }
}

/// The DeleteNote transition. The account must exist and sit at the address
/// derived from the signer's key and its own stored title; the handler body
/// checks authorization; then the runtime closes the account and refunds
/// its entire lamport balance to the author. On success the result carries
/// the remaining accounts and the author's new balance.
pub open spec fn spec_delete(
    s: Seq<AccountView>,
    note_addr: Seq<u8>,
    signer: Seq<u8>,
    author_lamports: u64,
) -> Result<(Seq<AccountView>, u64), ExecError> {
    if !has_addr(s, note_addr) {
        Err(ExecError::AccountNotInitialized)
    } else {
        let i = idx_of(s, note_addr);
        let acc = s[i];
        if pda_of(signer, acc.note.title) != Some(note_addr) {
            Err(ExecError::ConstraintSeeds)
        } else {
            match delete_check(acc.note, signer) {
                Err(e) => Err(ExecError::Program(e)),
                Ok(()) => Ok((s.remove(i), (author_lamports + acc.lamports) as u64)),
            }
        }
    }
}

/// The program's view of its live note accounts.
pub struct Registry {
    pub accounts: Vec<NoteAccount>,
}

impl View for Registry {
    type V = Seq<AccountView>;

    open spec fn view(&self) -> Seq<AccountView> {
        self.accounts@.map_values(|a: NoteAccount| a@)
    }
}

impl Registry {
    /// Well-formedness of the whole registry.
    pub open spec fn wf(self) -> bool {
        wf_accounts(self@)
    }

    /// An empty ledger: no note accounts.
    pub fn new() -> (r: Registry)
        ensures
            r@ == Seq::<AccountView>::empty(),
            r.wf(),
            seeded(r@),
    {
        let r = Registry { accounts: Vec::new() };
        proof {
            assert(r@ =~= Seq::<AccountView>::empty());
        }
        r
    }

    /// The number of live note accounts.
    pub fn len(&self) -> (n: usize)
        ensures
            n == self@.len(),
    {
        self.accounts.len()
    }

    /// The index of the account with the given address, if any.
    fn find_index(&self, address: &Vec<u8>) -> (r: Option<usize>)
        ensures
            match r {
                Some(i) => i < self@.len() && self@[i as int].address == address@,
                None => !has_addr(self@, address@),
            },
    {
        let n = self.accounts.len();
        let mut i: usize = 0;
        while i < n
            invariant
                n == self@.len(),
                0 <= i <= n,
                forall|j: int| 0 <= j < i ==> (#[trigger] self@[j]).address != address@,
            decreases n - i,
        {
            if key_eq(&self.accounts[i].address, address) {
                return Some(i);
            }
            i = i + 1;
        }
        None
    }

    /// The account at the given address, if one exists.
    pub fn lookup(&self, address: &Vec<u8>) -> (r: Option<&NoteAccount>)
        requires
            self.wf(),
        ensures
            match r {
                Some(acc) => has_addr(self@, address@) && acc@ == self@[idx_of(self@, address@)],
                None => !has_addr(self@, address@),
            },
    {
        match self.find_index(address) {
            None => None,
            Some(i) => {
                proof {
                    lemma_idx_of(self@, address@, i as int);
                }
                Some(&self.accounts[i])
            },
        }
    }

    /// The CreateNote instruction. On success the author's new balance is
    /// returned; on any failure no account changes.
    pub fn create_note(
        &mut self,
        accounts: &CreateNote,
        title: String,
        content: String,
        now: i64,
        rent: u64,
    ) -> (r: Result<u64, ExecError>)
        requires
            old(self).wf(),
            accounts.author@.len() == 32,
        ensures
            final(self).wf(),
            seeded(old(self)@) ==> seeded(final(self)@),
            match spec_create(
                old(self)@,
                accounts.note@,
                accounts.author@,
                accounts.author_lamports,
                title@,
                content@,
                now,
                rent,
            ) {
                Ok(s2) => final(self)@ == s2 && r == Ok::<u64, ExecError>(
                    (accounts.author_lamports - rent) as u64,
                ),
                Err(e) => final(self)@ == old(self)@ && r == Err::<u64, ExecError>(e),
            },
    {
        let address = match derive_note_address(&accounts.author, title.as_str()) {
            None => return Err(ExecError::ConstraintSeeds),
            Some(d) => d,
        };
        if !key_eq(&address, &accounts.note) {
            return Err(ExecError::ConstraintSeeds);
        }
        if self.find_index(&accounts.note).is_some() {
            return Err(ExecError::AccountAlreadyInitialized);
        }
        if accounts.author_lamports < rent {
            return Err(ExecError::InsufficientFunds);
        }
        match Note::new(accounts.author.clone(), title, content, now) {
            Err(e) => Err(ExecError::Program(e)),
            Ok(note) => {
                let ghost s_old = self@;
                self.accounts.push(NoteAccount { address, lamports: rent, note });
                proof {
                    assert(self@ =~= s_old.push(self@[s_old.len() as int]));
                }
                Ok(accounts.author_lamports - rent)
            },
        }
    }

    /// The UpdateNote instruction. On any failure no account changes.
    pub fn update_note(
        &mut self,
        accounts: &UpdateNote,
        content: String,
        now: i64,
    ) -> (r: Result<(), ExecError>)
        requires
            old(self).wf(),
            clock_ok(old(self)@, now),
        ensures
            final(self).wf(),
            seeded(old(self)@) ==> seeded(final(self)@),
            match spec_update(old(self)@, accounts.note@, accounts.author@, content@, now) {
                Ok(s2) => final(self)@ == s2 && r == Ok::<(), ExecError>(()),
                Err(e) => final(self)@ == old(self)@ && r == Err::<(), ExecError>(e),
            },
    {
        let i = match self.find_index(&accounts.note) {
            None => return Err(ExecError::AccountNotInitialized),
            Some(i) => i,
        };
        proof {
            lemma_idx_of(self@, accounts.note@, i as int);
        }
        let derived = match derive_note_address(&accounts.author, self.accounts[i].note.title.as_str()) {
            None => return Err(ExecError::ConstraintSeeds),
            Some(d) => d,
        };
        if !key_eq(&derived, &accounts.note) {
            return Err(ExecError::ConstraintSeeds);
        }
        let ghost s_old = self@;
        let mut acc = self.accounts.remove(i);
        let res = acc.note.apply_update(&accounts.author, content, now);
        self.accounts.insert(i, acc);
        match res {
            Err(e) => {
                proof {
                    assert(self@ =~= s_old);
                }
                Err(ExecError::Program(e))
            },
            Ok(()) => {
                proof {
                    assert(self@ =~= s_old.update(i as int, self@[i as int]));
                }
                Ok(())
            },
        }
    }

    /// The DeleteNote instruction. On success the account is gone and the
    /// author's new balance, increased by exactly the account's lamports, is
    /// returned; on any failure no account changes.
    pub fn delete_note(&mut self, accounts: &DeleteNote) -> (r: Result<u64, ExecError>)
        requires
            old(self).wf(),
            forall|i: int|
                0 <= i < old(self)@.len() ==> accounts.author_lamports + (#[trigger] old(
                    self,
                )@[i]).lamports <= u64::MAX,
        ensures
            final(self).wf(),
            seeded(old(self)@) ==> seeded(final(self)@),
            match spec_delete(
                old(self)@,
                accounts.note@,
                accounts.author@,
                accounts.author_lamports,
            ) {
                Ok(pair) => final(self)@ == pair.0 && r == Ok::<u64, ExecError>(pair.1),
                Err(e) => final(self)@ == old(self)@ && r == Err::<u64, ExecError>(e),
            },
    {
        let i = match self.find_index(&accounts.note) {
            None => return Err(ExecError::AccountNotInitialized),
            Some(i) => i,
        };
        proof {
            lemma_idx_of(self@, accounts.note@, i as int);
        }
        let derived = match derive_note_address(&accounts.author, self.accounts[i].note.title.as_str()) {
            None => return Err(ExecError::ConstraintSeeds),
            Some(d) => d,
        };
        if !key_eq(&derived, &accounts.note) {
            return Err(ExecError::ConstraintSeeds);
        }
        match self.accounts[i].note.check_author(&accounts.author) {
            Err(e) => Err(ExecError::Program(e)),
            Ok(()) => {
                let ghost s_old = self@;
                let acc = self.accounts.remove(i);
                proof {
                    assert(self@ =~= s_old.remove(i as int));
                }
                Ok(accounts.author_lamports + acc.lamports)
            },
        }
    }
}

} // verus!
