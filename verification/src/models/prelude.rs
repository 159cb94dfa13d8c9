use vstd::prelude::*;

use bytes::Bytes;

verus! {

/// The kinds of chunk a manuscript is made of.
#[derive(Debug, Clone, Copy, PartialEq, Eq, Hash, PartialOrd, Structural)]
pub enum ChunkType {
    Manifest,
    Chapter,
    CharacterSheet,
}

impl ChunkType {
    /// The description of a chunk type shown to the user.
    pub open spec fn spec_description(self) -> Seq<char> {
        match self {
            ChunkType::Manifest => "Manifest"@,
            ChunkType::Chapter => "Chapter"@,
            ChunkType::CharacterSheet => "Character Sheet"@,
        }
    }

    /// The description of this chunk type ("Manifest", "Chapter" or
    /// "Character Sheet").
    pub fn to_string(&self) -> (r: String)
        ensures
            r@ == self.spec_description(),
    {
        let desc: &str = match self {
            ChunkType::Manifest => "Manifest",
            ChunkType::Chapter => "Chapter",
            ChunkType::CharacterSheet => "Character Sheet",
        };
        desc.to_string()
    }
}

/// The errors the document model and its manager report.
#[derive(Debug, Clone)]
pub enum ManuscriptError {
    NoDocument,
    NoBackend,
    Save,
    Open(String),
    DocumentLock,
    DocumentSerialize,
    DocumentDeserialize,
    ChunkParse,
    ChunkBusy,
    ChunkUnavailable,
    Reason(&'static str),
}

pub type ManuscriptResult<T> = Result<T, ManuscriptError>;

/// A tag laid over a range of a buffer: start, end and the tag's name.
#[derive(Clone, Debug)]
pub struct TagMark(pub i32, pub i32, pub String);

/// A color held as the IEEE-754 bit patterns of its four single-precision
/// channels (red, green, blue, alpha). The model only carries it; the
/// channels are read as floats at the edges of the program.
#[derive(Clone, Copy, Debug, PartialEq, Eq, Structural)]
pub struct RgbaBits {
    pub red: u32,
    pub green: u32,
    pub blue: u32,
    pub alpha: u32,
}

impl RgbaBits {
    /// The fully transparent black, all four channels 0.0.
    pub fn transparent() -> (r: RgbaBits)
        ensures
            r.red == 0 && r.green == 0 && r.blue == 0 && r.alpha == 0,
    {
        RgbaBits { red: 0, green: 0, blue: 0, alpha: 0 }
    }
}

impl Default for RgbaBits {
    fn default() -> (r: RgbaBits)
        ensures
            r == RgbaBits::transparent_spec(),
    {
        RgbaBits::transparent()
    }
}

impl RgbaBits {
    pub open spec fn transparent_spec() -> RgbaBits {
        RgbaBits { red: 0, green: 0, blue: 0, alpha: 0 }
    }
}

// ---------------------------------------------------------------------------
// `bytes::Bytes`, the byte buffer that holds the text of chapters and sheets.
// ---------------------------------------------------------------------------

#[verifier::external_type_specification]
#[verifier::external_body]
pub struct ExBytes(bytes::Bytes);

/// The bytes a `bytes::Bytes` buffer holds.
pub uninterp spec fn bytes_view(b: Bytes) -> Seq<u8>;

/// `Bytes::new`: an empty buffer.
#[verifier::external_body]
pub(crate) fn bytes_new() -> (r: Bytes)
    ensures
        bytes_view(r) == Seq::<u8>::empty(),
{
    Bytes::new()
}

/// `<Bytes as From<Vec<u8>>>::from`: a buffer holding exactly the bytes of the vector.
#[verifier::external_body]
pub(crate) fn bytes_from_vec(v: Vec<u8>) -> (r: Bytes)
    ensures
        bytes_view(r) == v@,
{
    Bytes::from(v)
}

/// `<Bytes as From<String>>::from`: a buffer holding the UTF-8 encoding of the string.
#[verifier::external_body]
pub(crate) fn bytes_from_string(s: String) -> (r: Bytes)
    ensures
        bytes_view(r) == vstd::utf8::encode_utf8(s@),
{
    Bytes::from(s)
}

/// `Bytes::len`: the number of bytes in the buffer.
#[verifier::external_body]
pub(crate) fn bytes_len(b: &Bytes) -> (r: usize)
    ensures
        r == bytes_view(*b).len(),
{
    b.len()
}

/// Indexing a `Bytes` (through its deref to `[u8]`): the byte at position `i`.
#[verifier::external_body]
pub(crate) fn bytes_at(b: &Bytes, i: usize) -> (r: u8)
    requires
        i < bytes_view(*b).len(),
    ensures
        r == bytes_view(*b)[i as int],
{
    b[i]
}

/// `<Bytes as AsRef<[u8]>>::as_ref`: the bytes of the buffer as a slice.
#[verifier::external_body]
pub(crate) fn bytes_as_slice(b: &Bytes) -> (r: &[u8])
    ensures
        r@ == bytes_view(*b),
{
    b.as_ref()
}

/// `<Bytes as Clone>::clone`: a buffer holding the same bytes (the clone
/// shares the storage of the buffer it copies, whose contents never change).
pub assume_specification[ <Bytes as Clone>::clone ](b: &Bytes) -> (r: Bytes)
    ensures
        bytes_view(r) == bytes_view(*b),
;

/// A buffer holding a copy of the given bytes.
pub(crate) fn bytes_copy_of(value: &[u8]) -> (r: Bytes)
    ensures
        bytes_view(r) == value@,
{
    bytes_from_vec(vstd::slice::slice_to_vec(value))
}

// ---------------------------------------------------------------------------
// Word counting.
// ---------------------------------------------------------------------------

/// The bytes that separate words: space, newline, tab, carriage return and '#'.
pub open spec fn is_word_separator(c: u8) -> bool {
    c == 32u8 || c == 10u8 || c == 9u8 || c == 13u8 || c == 35u8
}

/// Position `i` of `s` begins a word: its byte is no separator, and it is the
/// first byte or follows a separator.
pub open spec fn starts_word(s: Seq<u8>, i: int) -> bool {
    &&& !is_word_separator(s[i])
    &&& (i == 0 || is_word_separator(s[i - 1]))
}

/// The number of words in `s`: the number of positions that begin a word.
pub open spec fn word_count(s: Seq<u8>) -> nat
    decreases s.len(),
{
    if s.len() == 0 {
        0
    } else {
        word_count(s.drop_last()) + if starts_word(s, s.len() - 1) {
            1nat
        } else {
            0nat
        }
    }
}

/// A prefix of `s` has its words counted on its own positions.
proof fn lemma_word_count_step(s: Seq<u8>, i: int)
    requires
        0 <= i < s.len(),
    ensures
        word_count(s.take(i + 1)) == word_count(s.take(i)) + if starts_word(s, i) {
            1nat
        } else {
            0nat
        },
{
    assert(s.take(i + 1).drop_last() =~= s.take(i));
    assert(starts_word(s.take(i + 1), i) == starts_word(s, i));
}

/// A text has no more words than bytes.
pub proof fn lemma_word_count_bounded(s: Seq<u8>)
    ensures
        word_count(s) <= s.len(),
    decreases s.len(),
{
    if s.len() > 0 {
        lemma_word_count_bounded(s.drop_last());
    }
}

/// Joining two texts with a separator between them adds their word counts.
pub proof fn lemma_word_count_join(a: Seq<u8>, sep: u8, b: Seq<u8>)
    requires
        is_word_separator(sep),
    ensures
        word_count(a + seq![sep] + b) == word_count(a) + word_count(b),
    decreases b.len(),
{
    let s = a + seq![sep] + b;
    if b.len() == 0 {
        assert(s.drop_last() =~= a);
    } else {
        lemma_word_count_join(a, sep, b.drop_last());
        assert(s.drop_last() =~= a + seq![sep] + b.drop_last());
        let n = s.len() - 1;
        let m = b.len() - 1;
        assert(s[n] == b[m]);
        if m > 0 {
            assert(s[n - 1] == b[m - 1]);
        } else {
            assert(s[n - 1] == sep);
        }
        assert(starts_word(s, n) == starts_word(b, m));
    }
}

/// A text made only of separators has no word.
pub proof fn lemma_word_count_separators(s: Seq<u8>)
    requires
        forall|i: int| 0 <= i < s.len() ==> is_word_separator(#[trigger] s[i]),
    ensures
        word_count(s) == 0,
    decreases s.len(),
{
    if s.len() > 0 {
        lemma_word_count_separators(s.drop_last());
    }
}

/// A text that is not empty and holds none of the bytes space (32), newline
/// (10), tab (9), carriage return (13) and '#' (35) is one word, whatever
/// other bytes it holds, the bytes of multibyte UTF-8 letters included.
pub proof fn lemma_word_count_single_word(s: Seq<u8>)
    requires
        s.len() > 0,
        forall|i: int|
            0 <= i < s.len() ==> {
                let c = #[trigger] s[i];
                c != 32u8 && c != 10u8 && c != 9u8 && c != 13u8 && c != 35u8
            },
    ensures
        word_count(s) == 1,
    decreases s.len(),
{
    if s.len() == 1 {
        assert(s.drop_last().len() == 0);
        assert(word_count(s.drop_last()) == 0);
        assert(starts_word(s, 0));
    } else {
        let t = s.drop_last();
        assert forall|i: int| 0 <= i < t.len() implies {
            let c = #[trigger] t[i];
            c != 32u8 && c != 10u8 && c != 9u8 && c != 13u8 && c != 35u8
        } by {
            assert(t[i] == s[i]);
        }
        lemma_word_count_single_word(t);
        let n = s.len() - 1;
        assert(s[n - 1] != 32u8 && s[n - 1] != 10u8 && s[n - 1] != 9u8 && s[n - 1] != 13u8
            && s[n - 1] != 35u8);
        assert(!starts_word(s, n));
        assert(s.drop_last() == t);
    }
}

/// Each of the bytes space (32), newline (10), tab (9), carriage return (13)
/// and '#' (35) separates two words.
pub proof fn lemma_word_count_separator_bytes(a: Seq<u8>, b: Seq<u8>, sep: u8)
    requires
        sep == 32u8 || sep == 10u8 || sep == 9u8 || sep == 13u8 || sep == 35u8,
    ensures
        word_count(a + seq![sep] + b) == word_count(a) + word_count(b),
{
    lemma_word_count_join(a, sep, b);
}

/// Analytics computed over a text buffer.
pub trait BufferAnalytics {
    spec fn spec_text(&self) -> Seq<u8>;

    /// Counts the words in the buffer.
    fn words_count(&self) -> (r: u64)
        ensures
            r == word_count(self.spec_text()),
    ;
}

impl BufferAnalytics for Bytes {
    open spec fn spec_text(&self) -> Seq<u8> {
        bytes_view(*self)
    }

    /// Counts the words in the buffer: maximal runs of bytes that are not
    /// space, newline, tab, carriage return or '#'.
    fn words_count(&self) -> (r: u64) {
        let len: usize = bytes_len(self);
        let ghost s = bytes_view(*self);
        let mut state: u8 = 0;
        let mut wc: u64 = 0;
        let mut i: usize = 0;
        while i < len
            invariant
                len == s.len(),
                s == bytes_view(*self),
                0 <= i <= len,
                wc == word_count(s.take(i as int)),
                wc <= i,
                state == 0 || state == 1,
                (state == 1) == (i > 0 && !is_word_separator(s[i - 1])),
            decreases len - i,
        {
            let c: u8 = bytes_at(self, i);
            proof {
                lemma_word_count_step(s, i as int);
            }
            if c == 32u8 || c == 10u8 || c == 9u8 || c == 13u8 || c == 35u8 {
                state = 0;
            } else if state == 0 {
                state = 1;
                wc = wc + 1;
            }
            i = i + 1;
        }
        assert(s.take(len as int) =~= s);
        assert(wc == word_count(self.spec_text()));
        wc
    }
}

} // verus!
