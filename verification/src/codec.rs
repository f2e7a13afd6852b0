//! The canonical byte layouts of the program's external interface: the
//! persisted note account (an 8-byte account-type discriminator followed by
//! the fields in declared order, strings carried behind a 4-byte
//! little-endian length prefix) and the instruction data of the three
//! handlers (an 8-byte instruction discriminator followed by the
//! parameters in the same encoding).
use crate::note::Note;
use crate::note::NoteView;
use crate::pda::key_eq;
use crate::registry::NOTE_ACCOUNT_SPACE;
use crate::text::byte_len;
use vstd::bytes::spec_u32_from_le_bytes;
use vstd::bytes::spec_u32_to_le_bytes;
use vstd::bytes::spec_u64_from_le_bytes;
use vstd::bytes::spec_u64_to_le_bytes;
use vstd::bytes::u32_from_le_bytes;
use vstd::bytes::u32_to_le_bytes;
use vstd::bytes::u64_from_le_bytes;
use vstd::bytes::u64_to_le_bytes;
use vstd::prelude::*;
use vstd::utf8::decode_utf8;
use vstd::utf8::valid_utf8;

verus! {

broadcast use vstd::slice::axiom_spec_len;

/// The account-type tag of a note account: the first eight bytes of the
/// SHA-256 digest of "account:Note", after the convention that derives
/// account discriminators from the record's name.
pub open spec fn note_account_disc() -> Seq<u8> {
    seq![203u8, 75u8, 252u8, 196u8, 81u8, 210u8, 122u8, 126u8]
}

/// The instruction tag of CreateNote: the first eight bytes of the SHA-256
/// digest of "global:create_note", after the convention that derives
/// instruction discriminators from the handler's name.
pub open spec fn create_note_disc() -> Seq<u8> {
    seq![103u8, 2u8, 208u8, 242u8, 86u8, 156u8, 151u8, 107u8]
}

/// The instruction tag of UpdateNote: from "global:update_note".
pub open spec fn update_note_disc() -> Seq<u8> {
    seq![103u8, 129u8, 251u8, 34u8, 33u8, 154u8, 210u8, 148u8]
}

/// The instruction tag of DeleteNote: from "global:delete_note".
pub open spec fn delete_note_disc() -> Seq<u8> {
    seq![182u8, 211u8, 115u8, 229u8, 163u8, 88u8, 108u8, 217u8]
}

/// The two's-complement image of a signed 64-bit value.
pub open spec fn u64_of_i64(n: i64) -> u64 {
    (if n >= 0 {
        n as int
    } else {
        n + 0x1_0000_0000_0000_0000
    }) as u64
}

/// A signed 64-bit timestamp on the wire: its two's complement, little
/// endian.
pub open spec fn i64_le_bytes(n: i64) -> Seq<u8> {
    spec_u64_to_le_bytes(u64_of_i64(n))
}

/// A string on the wire: a 4-byte little-endian byte-length prefix followed
/// by the UTF-8 bytes. Meaningful when the byte length fits 32 bits.
pub open spec fn string_bytes(s: Seq<char>) -> Seq<u8> {
    spec_u32_to_le_bytes(byte_len(s) as u32) + vstd::utf8::encode_utf8(s)
}

/// The persisted image of a note account: discriminator, author key, the
/// two length-prefixed strings, and the two timestamps. The account itself
/// reserves NOTE_ACCOUNT_SPACE bytes; bytes past this image are left
/// undefined.
pub open spec fn note_bytes(n: NoteView) -> Seq<u8> {
    note_account_disc() + n.author + string_bytes(n.title) + string_bytes(n.content)
        + i64_le_bytes(n.created_at) + i64_le_bytes(n.last_updated)
}

/// The instruction data of CreateNote: discriminator, then title and
/// content.
pub open spec fn create_note_data(title: Seq<char>, content: Seq<char>) -> Seq<u8> {
    create_note_disc() + string_bytes(title) + string_bytes(content)
}

/// The instruction data of UpdateNote: discriminator, then the new content.
pub open spec fn update_note_data(content: Seq<char>) -> Seq<u8> {
    update_note_disc() + string_bytes(content)
}

/// The instruction data of DeleteNote: the discriminator alone.
pub open spec fn delete_note_data() -> Seq<u8> {
    delete_note_disc()
}

/// Appends a slice of bytes.
fn push_bytes(out: &mut Vec<u8>, src: &[u8])
    ensures
        final(out)@ == old(out)@ + src@,
{
    let n = src.len();
    let mut i: usize = 0;
    while i < n
        invariant
            n == src@.len(),
            0 <= i <= n,
            out@ == old(out)@ + src@.take(i as int),
        decreases n - i,
    {
        let b = *vstd::slice::slice_index_get(src, i);
        out.push(b);
        proof {
            assert(out@ =~= old(out)@ + src@.take(i + 1 as int));
        }
        i = i + 1;
    }
    proof {
        assert(out@ =~= old(out)@ + src@);
    }
}

/// Appends a string in the wire encoding: length prefix, then bytes.
fn push_string(out: &mut Vec<u8>, s: &str)
    requires
        byte_len(s@) <= u32::MAX,
    ensures
        final(out)@ == old(out)@ + string_bytes(s@),
{
    let bytes = s.as_bytes();
    let prefix = u32_to_le_bytes(bytes.len() as u32);
    push_bytes(out, prefix.as_slice());
    push_bytes(out, bytes);
    proof {
        assert(out@ =~= old(out)@ + string_bytes(s@));
    }
}

/// Appends a signed 64-bit value as its little-endian two's complement.
fn push_i64(out: &mut Vec<u8>, n: i64)
    ensures
        final(out)@ == old(out)@ + i64_le_bytes(n),
{
    let image: u64 = if n >= 0 {
        n as u64
    } else {
        // Two's complement without overflowing: -(n + 1) lies in 0..=i64::MAX.
        let m: i64 = -(n + 1);
        u64::MAX - (m as u64)
    };
    assert(image == u64_of_i64(n));
    let bytes = u64_to_le_bytes(image);
    push_bytes(out, bytes.as_slice());
}

impl Note {
    /// The persisted image of this note, as the runtime's canonical
    /// encoding lays it out. It always fits the fixed reservation.
    pub fn serialize(&self) -> (r: Vec<u8>)
        requires
            self@.wf(),
        ensures
            r@ == note_bytes(self@),
            r@.len() <= NOTE_ACCOUNT_SPACE,
    {
        let mut out: Vec<u8> = Vec::new();
        push_bytes(&mut out, note_disc_slice().as_slice());
        push_bytes(&mut out, self.author.as_slice());
        push_string(&mut out, self.title.as_str());
        push_string(&mut out, self.content.as_str());
        push_i64(&mut out, self.created_at);
        push_i64(&mut out, self.last_updated);
        proof {
            vstd::bytes::lemma_auto_spec_u32_to_from_le_bytes();
            vstd::bytes::lemma_auto_spec_u64_to_from_le_bytes();
            assert(out@ =~= note_bytes(self@));
        }
        out
    }
}

/// The account-type discriminator as a value.
fn note_disc_slice() -> (r: Vec<u8>)
    ensures
        r@ == note_account_disc(),
{
    let mut out: Vec<u8> = Vec::new();
    out.push(203);
    out.push(75);
    out.push(252);
    out.push(196);
    out.push(81);
    out.push(210);
    out.push(122);
    out.push(126);
    proof {
        assert(out@ =~= note_account_disc());
    }
    out
}

/// The CreateNote instruction data for the given parameters.
pub fn encode_create_note(title: &str, content: &str) -> (r: Vec<u8>)
    requires
        byte_len(title@) <= u32::MAX,
        byte_len(content@) <= u32::MAX,
    ensures
        r@ == create_note_data(title@, content@),
{
    let mut out: Vec<u8> = Vec::new();
    out.push(103);
    out.push(2);
    out.push(208);
    out.push(242);
    out.push(86);
    out.push(156);
    out.push(151);
    out.push(107);
    proof {
        assert(out@ =~= create_note_disc());
    }
    push_string(&mut out, title);
    push_string(&mut out, content);
    proof {
        assert(out@ =~= create_note_data(title@, content@));
    }
    out
}

/// The UpdateNote instruction data for the given parameter.
pub fn encode_update_note(content: &str) -> (r: Vec<u8>)
    requires
        byte_len(content@) <= u32::MAX,
    ensures
        r@ == update_note_data(content@),
{
    let mut out: Vec<u8> = Vec::new();
    out.push(103);
    out.push(129);
    out.push(251);
    out.push(34);
    out.push(33);
    out.push(154);
    out.push(210);
    out.push(148);
    proof {
        assert(out@ =~= update_note_disc());
    }
    push_string(&mut out, content);
    proof {
        assert(out@ =~= update_note_data(content@));
    }
    out
}

/// The signed reading of a two's-complement 64-bit image.
pub open spec fn i64_of_u64(u: u64) -> i64 {
    (if u < 0x8000_0000_0000_0000 {
        u as int
    } else {
        u - 0x1_0000_0000_0000_0000
    }) as i64
}

/// Reading back a two's-complement image recovers the signed value.
pub proof fn lemma_i64_image_round_trip(n: i64)
    ensures
        i64_of_u64(u64_of_i64(n)) == n,
{
}

/// The parse of a persisted note image. Trailing bytes past the image are
/// the account's reserved slack and are ignored, as the runtime's decoder
/// ignores them.
pub open spec fn parse_note(bytes: Seq<u8>) -> Option<NoteView> {
    if bytes.len() < 44 {
        None
    } else if bytes.subrange(0, 8) != note_account_disc() {
        None
    } else {
        let author = bytes.subrange(8, 40);
        let tlen = spec_u32_from_le_bytes(bytes.subrange(40, 44)) as int;
        if bytes.len() < 48 + tlen {
            None
        } else {
            let tbytes = bytes.subrange(44, 44 + tlen);
            let clen = spec_u32_from_le_bytes(bytes.subrange(44 + tlen, 48 + tlen)) as int;
            if bytes.len() < 64 + tlen + clen {
                None
            } else {
                let cbytes = bytes.subrange(48 + tlen, 48 + tlen + clen);
                if !valid_utf8(tbytes) || !valid_utf8(cbytes) {
                    None
                } else {
                    let tail = 48 + tlen + clen;
                    Some(
                        NoteView {
                            author,
                            title: decode_utf8(tbytes),
                            content: decode_utf8(cbytes),
                            created_at: i64_of_u64(
                                spec_u64_from_le_bytes(bytes.subrange(tail, tail + 8)),
                            ),
                            last_updated: i64_of_u64(
                                spec_u64_from_le_bytes(bytes.subrange(tail + 8, tail + 16)),
                            ),
                        },
                    )
                }
            }
        }
    }
}

/// Relies on str::from_utf8: it succeeds exactly on valid UTF-8 and
/// decodes it to its characters.
#[verifier::external_body]
fn bytes_to_string(b: &[u8]) -> (r: Option<String>)
    ensures
        r is Some <==> valid_utf8(b@),
        r matches Some(s) ==> s@ == decode_utf8(b@),
{
    match std::str::from_utf8(b) {
        Ok(s) => Some(s.to_string()),
        Err(_) => None,
    }
}

/// The signed value whose two's-complement image is the argument.
fn i64_from_image(u: u64) -> (r: i64)
    ensures
        r == i64_of_u64(u),
{
    if u < 0x8000_0000_0000_0000 {
        u as i64
    } else {
        let m: u64 = u64::MAX - u;
        -(m as i64) - 1
    }
}

impl Note {
    /// Reads a note back from a persisted image, ignoring the reserved
    /// slack past the encoded fields; nothing if the bytes do not parse.
    pub fn deserialize(bytes: &[u8]) -> (r: Option<Note>)
        ensures
            match r {
                Some(n) => parse_note(bytes@) == Some(n@),
                None => parse_note(bytes@) is None,
            },
    {
        let n = bytes.len();
        if n < 44 {
            return None;
        }
        let disc = vstd::slice::slice_to_vec(vstd::slice::slice_subrange(bytes, 0, 8));
        let expected = note_disc_slice();
        if !key_eq(&disc, &expected) {
            proof {
                assert(bytes@.subrange(0, 8) == disc@);
            }
            return None;
        }
        let tlen = u32_from_le_bytes(vstd::slice::slice_subrange(bytes, 40, 44)) as usize;
        if n - 44 < 4 || n - 48 < tlen {
            return None;
        }
        let t_end = 44 + tlen;
        let clen = u32_from_le_bytes(vstd::slice::slice_subrange(bytes, t_end, t_end + 4))
            as usize;
        let c_start = t_end + 4;
        if n - c_start < 16 || n - c_start - 16 < clen {
            return None;
        }
        let c_end = c_start + clen;
        let title = match bytes_to_string(vstd::slice::slice_subrange(bytes, 44, t_end)) {
            None => return None,
            Some(s) => s,
        };
        let content = match bytes_to_string(vstd::slice::slice_subrange(bytes, c_start, c_end)) {
            None => return None,
            Some(s) => s,
        };
        let created_at = i64_from_image(
            u64_from_le_bytes(vstd::slice::slice_subrange(bytes, c_end, c_end + 8)),
        );
        let last_updated = i64_from_image(
            u64_from_le_bytes(vstd::slice::slice_subrange(bytes, c_end + 8, c_end + 16)),
        );
        let author = vstd::slice::slice_to_vec(vstd::slice::slice_subrange(bytes, 8, 40));
        Some(Note { author, title, content, created_at, last_updated })
    }
}

/// Parsing a persisted image recovers exactly the note that was written,
/// whatever reserved slack follows it.
pub proof fn lemma_note_image_round_trip(v: NoteView, slack: Seq<u8>)
    requires
        v.wf(),
    ensures
        parse_note(note_bytes(v) + slack) == Some(v),
{
    vstd::bytes::lemma_auto_spec_u32_to_from_le_bytes();
    vstd::bytes::lemma_auto_spec_u64_to_from_le_bytes();
    broadcast use vstd::utf8::encode_utf8_valid_utf8;
    broadcast use vstd::utf8::encode_utf8_decode_utf8;

    let b = note_bytes(v) + slack;
    let tlen = byte_len(v.title) as int;
    let clen = byte_len(v.content) as int;
    let tail = 48 + tlen + clen;
    assert(b.subrange(0, 8) =~= note_account_disc());
    assert(b.subrange(8, 40) =~= v.author);
    assert(b.subrange(40, 44) =~= spec_u32_to_le_bytes(byte_len(v.title) as u32));
    assert(spec_u32_from_le_bytes(b.subrange(40, 44)) as int == tlen);
    assert(b.subrange(44, 44 + tlen) =~= vstd::utf8::encode_utf8(v.title));
    assert(b.subrange(44 + tlen, 48 + tlen) =~= spec_u32_to_le_bytes(byte_len(v.content) as u32));
    assert(spec_u32_from_le_bytes(b.subrange(44 + tlen, 48 + tlen)) as int == clen);
    assert(b.subrange(48 + tlen, 48 + tlen + clen) =~= vstd::utf8::encode_utf8(v.content));
    assert(b.subrange(tail, tail + 8) =~= spec_u64_to_le_bytes(u64_of_i64(v.created_at)));
    assert(b.subrange(tail + 8, tail + 16) =~= spec_u64_to_le_bytes(u64_of_i64(v.last_updated)));
    lemma_i64_image_round_trip(v.created_at);
    lemma_i64_image_round_trip(v.last_updated);
    assert(decode_utf8(vstd::utf8::encode_utf8(v.title)) == v.title);
    assert(decode_utf8(vstd::utf8::encode_utf8(v.content)) == v.content);
}

/// The DeleteNote instruction data: the discriminator alone.
pub fn encode_delete_note() -> (r: Vec<u8>)
    ensures
        r@ == delete_note_data(),
{
    let mut out: Vec<u8> = Vec::new();
    out.push(182);
    out.push(211);
    out.push(115);
    out.push(229);
    out.push(163);
    out.push(88);
    out.push(108);
    out.push(217);
    proof {
        assert(out@ =~= delete_note_data());
    }
    out
}

} // verus!
