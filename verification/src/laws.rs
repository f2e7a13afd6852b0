//! The guarantees of the instruction set, stated and proved over the
//! spec-level transitions that the handlers' contracts are phrased in.
use crate::error::ExecError;
use crate::note::NoteView;
use crate::pda::pda_of;
use crate::registry::AccountView;
use crate::registry::clock_ok;
use crate::registry::has_addr;
use crate::registry::idx_of;
use crate::registry::lemma_idx_of;
use crate::registry::spec_create;
use crate::registry::spec_delete;
use crate::registry::spec_update;
use crate::registry::wf_accounts;
use crate::text::create_check;
use vstd::prelude::*;

verus! {

/// Every successful CreateNote yields an account at the address derived
/// from ("note", author, title), authored by the signer, holding exactly
/// the given title and content, with created_at equal to last_updated;
/// every other account is untouched, and no account with that address
/// existed before.
pub proof fn lemma_create_effects(
    s: Seq<AccountView>,
    note_addr: Seq<u8>,
    author: Seq<u8>,
    author_lamports: u64,
    title: Seq<char>,
    content: Seq<char>,
    now: i64,
    rent: u64,
)
    requires
        spec_create(s, note_addr, author, author_lamports, title, content, now, rent) is Ok,
    ensures
        ({
            let s2 = spec_create(
                s,
                note_addr,
                author,
                author_lamports,
                title,
                content,
                now,
                rent,
            )->Ok_0;
            &&& pda_of(author, title) == Some(note_addr)
            &&& !has_addr(s, note_addr)
            &&& create_check(title, content) is Ok
            &&& author_lamports >= rent
            &&& s2.len() == s.len() + 1
            &&& forall|j: int| 0 <= j < s.len() ==> s2[j] == s[j]
            &&& s2.last() == (AccountView {
                address: note_addr,
                lamports: rent,
                note: NoteView { author, title, content, created_at: now, last_updated: now },
            })
        }),
{
}

/// Every successful UpdateNote leaves author, title, created_at, address
/// and lamports unchanged, stores exactly the new content, and moves
/// last_updated forward to the clock reading; every other account is
/// untouched, and the signer is the stored author.
pub proof fn lemma_update_effects(
    s: Seq<AccountView>,
    note_addr: Seq<u8>,
    signer: Seq<u8>,
    content: Seq<char>,
    now: i64,
)
    requires
        wf_accounts(s),
        clock_ok(s, now),
        spec_update(s, note_addr, signer, content, now) is Ok,
    ensures
        ({
            let s2 = spec_update(s, note_addr, signer, content, now)->Ok_0;
            let i = idx_of(s, note_addr);
            &&& 0 <= i < s.len() && s[i].address == note_addr
            &&& s2.len() == s.len()
            &&& forall|j: int| 0 <= j < s.len() && j != i ==> s2[j] == s[j]
            &&& s2[i].address == s[i].address
            &&& s2[i].lamports == s[i].lamports
            &&& s2[i].note.author == s[i].note.author
            &&& s2[i].note.title == s[i].note.title
            &&& s2[i].note.created_at == s[i].note.created_at
            &&& s2[i].note.content == content
            &&& s2[i].note.last_updated == now
            &&& s[i].note.last_updated <= s2[i].note.last_updated
            &&& signer == s[i].note.author
        }),
{
    let i = idx_of(s, note_addr);
    assert(0 <= i < s.len() && s[i].address == note_addr);
}

/// Every successful DeleteNote removes exactly the addressed account — no
/// account with that address remains — and credits the author with exactly
/// the account's prior lamport balance; every other account is kept, in
/// order.
pub proof fn lemma_delete_effects(
    s: Seq<AccountView>,
    note_addr: Seq<u8>,
    signer: Seq<u8>,
    author_lamports: u64,
)
    requires
        wf_accounts(s),
        spec_delete(s, note_addr, signer, author_lamports) is Ok,
        forall|i: int|
            0 <= i < s.len() ==> author_lamports + (#[trigger] s[i]).lamports <= u64::MAX,
    ensures
        ({
            let pair = spec_delete(s, note_addr, signer, author_lamports)->Ok_0;
            let i = idx_of(s, note_addr);
            &&& 0 <= i < s.len() && s[i].address == note_addr
            &&& s[i].note.author == signer
            &&& pair.0.len() == s.len() - 1
            &&& !has_addr(pair.0, note_addr)
            &&& pair.1 == author_lamports + s[i].lamports
            &&& forall|j: int| 0 <= j < i ==> pair.0[j] == s[j]
            &&& forall|j: int| i <= j < pair.0.len() ==> pair.0[j] == s[j + 1]
        }),
{
    let i = idx_of(s, note_addr);
    assert(0 <= i < s.len() && s[i].address == note_addr);
    let rest = s.remove(i);
    assert forall|j: int| 0 <= j < rest.len() implies (#[trigger] rest[j]).address
        != note_addr by {
        if j < i {
            assert(rest[j] == s[j]);
            assert(s[j].address != s[i].address);
        } else {
            assert(rest[j] == s[j + 1]);
            assert(s[i].address != s[j + 1].address);
        }
    }
}

/// Two live accounts with the same author and title cannot coexist: each
/// account sits at the address derived from its own author and title, and
/// addresses are unique.
pub proof fn lemma_pair_determines_account(s: Seq<AccountView>, i: int, j: int)
    requires
        wf_accounts(s),
        crate::registry::seeded(s),
        0 <= i < s.len(),
        0 <= j < s.len(),
        s[i].note.author == s[j].note.author,
        s[i].note.title == s[j].note.title,
    ensures
        i == j,
{
    assert(pda_of(s[i].note.author, s[i].note.title) == Some(s[i].address));
    assert(pda_of(s[j].note.author, s[j].note.title) == Some(s[j].address));
    if i < j {
        assert(s[i].address != s[j].address);
    } else if j < i {
        assert(s[j].address != s[i].address);
    }
}

/// Creating, deleting and re-creating a note with the same author, title
/// and content succeeds throughout: deletion returns the ledger to exactly
/// its prior accounts and refunds the rent, and the second creation starts
/// a fresh account whose timestamps both read the new clock.
pub proof fn lemma_create_delete_create(
    s: Seq<AccountView>,
    note_addr: Seq<u8>,
    author: Seq<u8>,
    title: Seq<char>,
    content: Seq<char>,
    lam1: u64,
    now1: i64,
    rent1: u64,
    lam2: u64,
    lam3: u64,
    now3: i64,
    rent3: u64,
)
    requires
        wf_accounts(s),
        author.len() == 32,
        note_addr.len() == 32,
        spec_create(s, note_addr, author, lam1, title, content, now1, rent1) is Ok,
        lam2 + rent1 <= u64::MAX,
        lam3 >= rent3,
    ensures
        ({
            let s1 = spec_create(s, note_addr, author, lam1, title, content, now1, rent1)->Ok_0;
            let d = spec_delete(s1, note_addr, author, lam2);
            &&& d is Ok
            &&& d->Ok_0.0 == s
            &&& d->Ok_0.1 == lam2 + rent1
            &&& spec_create(s, note_addr, author, lam3, title, content, now3, rent3) is Ok
            &&& spec_create(s, note_addr, author, lam3, title, content, now3, rent3)->Ok_0.last()
                == (AccountView {
                address: note_addr,
                lamports: rent3,
                note: NoteView { author, title, content, created_at: now3, last_updated: now3 },
            })
        }),
{
    let s1 = spec_create(s, note_addr, author, lam1, title, content, now1, rent1)->Ok_0;
    let n = s.len() as int;
    assert(s1 == s.push(s1[n]));
    assert(wf_accounts(s1)) by {
        assert(forall|j: int| 0 <= j < n ==> s1[j] == s[j]);
        assert(s1[n].note.wf());
        assert forall|i: int, j: int| 0 <= i < j < s1.len() implies (#[trigger] s1[i]).address
            != (#[trigger] s1[j]).address by {
            if j < n {
                assert(s[i].address != s[j].address);
            } else {
                assert(!has_addr(s, note_addr));
                assert(s1[i] == s[i]);
            }
        }
    }
    lemma_idx_of(s1, note_addr, n);
    assert(spec_delete(s1, note_addr, author, lam2) is Ok);
    assert(s1.remove(n) =~= s);
}

/// An update that stores the content already present is accepted, and
/// refreshes only last_updated: the resulting ledger is the old one with
/// that single field of that single account moved to the clock reading.
pub proof fn lemma_update_same_content(
    s: Seq<AccountView>,
    note_addr: Seq<u8>,
    signer: Seq<u8>,
    now: i64,
)
    requires
        wf_accounts(s),
        clock_ok(s, now),
        has_addr(s, note_addr),
        pda_of(signer, s[idx_of(s, note_addr)].note.title) == Some(note_addr),
        s[idx_of(s, note_addr)].note.author == signer,
    ensures
        ({
            let i = idx_of(s, note_addr);
            let r = spec_update(s, note_addr, signer, s[i].note.content, now);
            &&& r is Ok
            &&& r->Ok_0 == s.update(
                i,
                AccountView {
                    note: NoteView { last_updated: now, ..s[i].note },
                    ..s[i]
                },
            )
        }),
{
    let i = idx_of(s, note_addr);
    assert(0 <= i < s.len() && s[i].address == note_addr);
    assert(s[i].note.wf());
}

} // verus!
