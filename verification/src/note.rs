//! The note record: fixed ownership by a 32-byte author key, an immutable
//! title that participates in the account address, mutable content, and the
//! two timestamps. The handler-body logic of the three instructions lives
//! here as verified functions on the record.
use crate::error::ErrorCode;
use crate::pda::key_eq;
use crate::text::content_check;
use crate::text::create_check;
use crate::text::title_ok;
use crate::text::content_ok;
use crate::text::validate_create;
use crate::text::validate_content;
use vstd::prelude::*;

verus! {

/// A note as persisted in its account.
#[derive(Debug)]
pub struct Note {
    /// The 32-byte public key of the creating principal. Immutable.
    pub author: Vec<u8>,
    /// Immutable; participates in the account address.
    pub title: String,
    /// Mutable through update.
    pub content: String,
    /// Unix timestamp set once at creation.
    pub created_at: i64,
    /// Unix timestamp; equals created_at at creation, refreshed on update.
    pub last_updated: i64,
}

/// The mathematical value of a note.
pub ghost struct NoteView {
    pub author: Seq<u8>,
    pub title: Seq<char>,
    pub content: Seq<char>,
    pub created_at: i64,
    pub last_updated: i64,
}

impl View for Note {
    type V = NoteView;

    open spec fn view(&self) -> NoteView {
        NoteView {
            author: self.author@,
            title: self.title@,
            content: self.content@,
            created_at: self.created_at,
            last_updated: self.last_updated,
        }
    }
}

impl NoteView {
    /// Well-formedness: the author key is 32 bytes, title and content are
    /// within their limits and not blank, and the creation time never lies
    /// after the last update.
    pub open spec fn wf(self) -> bool {
        &&& self.author.len() == 32
        &&& title_ok(self.title)
        &&& content_ok(self.content)
        &&& self.created_at <= self.last_updated
    }
}

impl Note {
    /// The creation handler body: validate title and content in declared
    /// order, then populate every field, with both timestamps set to the
    /// clock reading.
    pub fn new(author: Vec<u8>, title: String, content: String, now: i64) -> (r: Result<
        Note,
        ErrorCode,
    >)
        requires
            author@.len() == 32,
        ensures
            match r {
                Ok(n) => create_check(title@, content@) is Ok && n@ == (NoteView {
                    author: author@,
                    title: title@,
                    content: content@,
                    created_at: now,
                    last_updated: now,
                }) && n@.wf(),
                Err(e) => create_check(title@, content@) == Err::<(), ErrorCode>(e),
            },
    {
        match validate_create(title.as_str(), content.as_str()) {
            Err(e) => Err(e),
            Ok(()) => Ok(
                Note { author, title, content, created_at: now, last_updated: now },
            ),
        }
    }

    /// The update handler body: the defense-in-depth author check, then the
    /// content checks, then the mutation of content and last_updated alone.
    /// On failure the note is untouched.
    pub fn apply_update(&mut self, signer: &Vec<u8>, content: String, now: i64) -> (r: Result<
        (),
        ErrorCode,
    >)
        requires
            old(self)@.wf(),
            now >= old(self)@.last_updated,
        ensures
            match r {
                Ok(()) => update_check(old(self)@, signer@, content@) is Ok && final(self)@
                    == (NoteView { content: content@, last_updated: now, ..old(self)@ })
                    && final(self)@.wf(),
                Err(e) => update_check(old(self)@, signer@, content@) == Err::<(), ErrorCode>(e)
                    && final(self)@ == old(self)@,
            },
    {
        if !key_eq(&self.author, signer) {
            return Err(ErrorCode::Unauthorized);
        }
        match validate_content(content.as_str()) {
            Err(e) => Err(e),
            Ok(()) => {
                self.content = content;
                self.last_updated = now;
                Ok(())
            },
        }
    }

    /// The deletion handler body: only the author check; closure itself is
    /// the runtime's work.
    pub fn check_author(&self, signer: &Vec<u8>) -> (r: Result<(), ErrorCode>)
        ensures
            r == delete_check(self@, signer@),
    {
        if key_eq(&self.author, signer) {
            Ok(())
        } else {
            Err(ErrorCode::Unauthorized)
        }
    }
}

/// The update handler checks in declared order: authorization first, then
/// the content checks.
pub open spec fn update_check(note: NoteView, signer: Seq<u8>, content: Seq<char>) -> Result<
    (),
    ErrorCode,
> {
    if note.author != signer {
        Err(ErrorCode::Unauthorized)
    } else {
        content_check(content)
    }
}

/// The deletion handler check: the caller must be the author.
pub open spec fn delete_check(note: NoteView, signer: Seq<u8>) -> Result<(), ErrorCode> {
    if note.author == signer {
        Ok(())
    } else {
        Err(ErrorCode::Unauthorized)
    }
}

} // verus!
