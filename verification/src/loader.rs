//! Executable loader: parses a raw byte buffer in the fixed container
//! format into an [`ExecutableImage`].
//!
//! The container is a little-endian layout: a four-byte magic, the
//! entry-point word, the number of code words, the number of data words,
//! then the code words and the data words, with nothing after them.
//! Loading is all-or-nothing: a bad magic, a truncated or oversized buffer,
//! or an entry point that is not the index of a code word yields
//! [`VerifyError::MalformedExecutable`] and never a partial image.
use vstd::prelude::*;

use crate::VerifyError;

verus! {

/// A parsed executable: ordered instruction words, ordered initial-memory
/// words, and the program-counter value execution starts from.
///
/// Immutable once produced; the entry point always indexes a code word.
#[derive(Clone, Debug, PartialEq, Eq)]
pub struct ExecutableImage {
    /// The program's instruction words, in program order.
    pub code: Vec<u32>,
    /// The initial-memory words, in address order.
    pub data: Vec<u32>,
    /// The initial program counter, an index into `code`.
    pub entry_point: u32,
}

/// The mathematical content of an [`ExecutableImage`].
#[verifier::ext_equal]
pub struct ImageView {
    /// The instruction words.
    pub code: Seq<u32>,
    /// The initial-memory words.
    pub data: Seq<u32>,
    /// The initial program counter.
    pub entry_point: u32,
}

impl View for ExecutableImage {
    type V = ImageView;

    open spec fn view(&self) -> ImageView {
        ImageView { code: self.code@, data: self.data@, entry_point: self.entry_point }
    }
}

impl ImageView {
    /// A well-formed image: the entry point is the index of a code word.
    pub open spec fn wf(self) -> bool {
        self.entry_point < self.code.len()
    }
}

/// The little-endian 32-bit word starting at byte offset `i` of `s`.
pub open spec fn le_word_at(s: Seq<u8>, i: int) -> u32
    recommends
        0 <= i,
        i + 4 <= s.len(),
{
    (s[i] as int + s[i + 1] as int * 0x100 + s[i + 2] as int * 0x10000 + s[i + 3] as int
        * 0x1000000) as u32
}

/// Whether `s` opens with the container's four magic bytes.
pub open spec fn has_magic(s: Seq<u8>) -> bool {
    &&& s.len() >= 4
    &&& s[0] == 0x56u8
    &&& s[1] == 0x4cu8
    &&& s[2] == 0x44u8
    &&& s[3] == 0x41u8
}

/// What loading returns on each possible buffer: the image for a
/// well-formed buffer, nothing for a malformed one.
///
/// A buffer is well-formed when it opens with the magic, its length is
/// exactly the sixteen header bytes plus four bytes per declared code and
/// data word, and the entry-point word indexes a code word.
pub open spec fn spec_load(s: Seq<u8>) -> Option<ImageView> {
    if s.len() < 16 {
        None
    } else if !has_magic(s) {
        None
    } else {
        let entry = le_word_at(s, 4);
        let nc = le_word_at(s, 8);
        let nd = le_word_at(s, 12);
        if s.len() != 16 + 4 * (nc as int) + 4 * (nd as int) {
            None
        } else if entry >= nc {
            None
        } else {
            Some(
                ImageView {
                    code: Seq::new(nc as nat, |k: int| le_word_at(s, 16 + 4 * k)),
                    data: Seq::new(nd as nat, |k: int| le_word_at(s, 16 + 4 * (nc as int) + 4 * k)),
                    entry_point: entry,
                },
            )
        }
    }
}

/// Reads the little-endian word at byte offset `i`.
fn read_word(bytes: &Vec<u8>, i: usize) -> (w: u32)
    requires
        i + 4 <= bytes@.len(),
    ensures
        w == le_word_at(bytes@, i as int),
{
    let n: usize = bytes.len();
    assert(i as int + 4 <= n as int);
    let b0 = bytes[i] as u32;
    let b1 = bytes[i + 1] as u32;
    let b2 = bytes[i + 2] as u32;
    let b3 = bytes[i + 3] as u32;
    b0 + b1 * 0x100 + b2 * 0x10000 + b3 * 0x1000000
}

/// Parses `bytes` into an executable image.
///
/// Total and deterministic: the outcome is exactly [`spec_load`] of the
/// bytes, so identical buffers always yield identical images, and a
/// malformed buffer yields [`VerifyError::MalformedExecutable`] and never a
/// partially populated image.
pub fn load_executable(bytes: &Vec<u8>) -> (r: Result<ExecutableImage, VerifyError>)
    ensures
        match r {
            Ok(img) => spec_load(bytes@) == Some(img@),
            Err(e) => spec_load(bytes@) is None && e == VerifyError::MalformedExecutable,
        },
{
    if bytes.len() < 16 {
        return Err(VerifyError::MalformedExecutable);
    }
    if !(bytes[0] == 0x56 && bytes[1] == 0x4c && bytes[2] == 0x44 && bytes[3] == 0x41) {
        return Err(VerifyError::MalformedExecutable);
    }
    let entry = read_word(bytes, 4);
    let num_code = read_word(bytes, 8);
    let num_data = read_word(bytes, 12);
    let expected_len: u64 = 16u64 + 4u64 * (num_code as u64) + 4u64 * (num_data as u64);
    if (bytes.len() as u64) != expected_len {
        return Err(VerifyError::MalformedExecutable);
    }
    if entry >= num_code {
        return Err(VerifyError::MalformedExecutable);
    }
    let blen: usize = bytes.len();
    let mut code: Vec<u32> = Vec::new();
    let mut i: u32 = 0;
    while i < num_code
        invariant
            i <= num_code,
            blen as int == bytes@.len(),
            bytes@.len() == 16 + 4 * (num_code as int) + 4 * (num_data as int),
            code@.len() == i as int,
            forall|k: int| 0 <= k < i as int ==> code@[k] == le_word_at(bytes@, 16 + 4 * k),
        decreases num_code - i,
    {
        assert(16 + 4 * (i as int) + 4 <= blen as int);
        let off: usize = 16 + 4 * (i as usize);
        let w = read_word(bytes, off);
        code.push(w);
        i = i + 1;
    }
    assert(16 + 4 * (num_code as int) <= blen as int);
    let base: usize = 16 + 4 * (num_code as usize);
    let mut data: Vec<u32> = Vec::new();
    let mut j: u32 = 0;
    while j < num_data
        invariant
            j <= num_data,
            blen as int == bytes@.len(),
            bytes@.len() == 16 + 4 * (num_code as int) + 4 * (num_data as int),
            base as int == 16 + 4 * (num_code as int),
            data@.len() == j as int,
            forall|k: int|
                0 <= k < j as int ==> data@[k] == le_word_at(
                    bytes@,
                    16 + 4 * (num_code as int) + 4 * k,
                ),
        decreases num_data - j,
    {
        assert(base as int + 4 * (j as int) + 4 <= blen as int);
        let off: usize = base + 4 * (j as usize);
        let w = read_word(bytes, off);
        data.push(w);
        j = j + 1;
    }
    let img = ExecutableImage { code, data, entry_point: entry };
    proof {
        let s = bytes@;
        let nc = le_word_at(s, 8);
        let nd = le_word_at(s, 12);
        assert(img@.code =~= Seq::new(nc as nat, |k: int| le_word_at(s, 16 + 4 * k)));
        assert(img@.data =~= Seq::new(
            nd as nat,
            |k: int| le_word_at(s, 16 + 4 * (nc as int) + 4 * k),
        ));
        assert(spec_load(s) == Some(img@));
    }
    Ok(img)
}

/// The loader is deterministic: equal input buffers have equal outcomes,
/// image and failure alike.
pub proof fn lemma_loader_deterministic(a: Seq<u8>, b: Seq<u8>)
    requires
        a == b,
    ensures
        spec_load(a) == spec_load(b),
{
}

/// Every image the loader produces is well-formed: its entry point is the
/// index of a code word, never a reference past the code segment.
pub proof fn lemma_loaded_image_wf(s: Seq<u8>)
    ensures
        spec_load(s) matches Some(img) ==> img.wf(),
{
}

/// An executable whose entry-point word does not index a code word is
/// rejected outright: no image is ever produced for it.
pub proof fn lemma_entry_point_outside_code_rejected(s: Seq<u8>)
    requires
        s.len() >= 16 ==> le_word_at(s, 4) >= le_word_at(s, 8),
    ensures
        spec_load(s) is None,
{
}

} // verus!
