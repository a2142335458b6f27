//! Process-image keys for the kernel-shared rule tables.
//!
//! An image is the executable path of a process, held as a fixed-capacity
//! ASCII byte buffer, zero-padded, so that it can serve as a bit-exact
//! lookup key shared with the kernel instrumentation.

use vstd::prelude::*;

verus! {

use vstd::string::StringSliceAdditionalSpecFns;

/// Capacity of an image key, in bytes. An accepted path is strictly
/// shorter, so the buffer always ends with at least one zero byte.
pub const MAX_IMAGE_LEN: usize = 100;

/// Why a string was refused as an image key.
#[derive(Clone, Copy, Debug, PartialEq, Eq, Structural)]
pub enum ImageError {
    /// The string holds a character outside ASCII.
    NotAscii,
    /// The string is as long as the buffer capacity or longer.
    TooLong,
}

/// A fixed-capacity, zero-padded ASCII encoding of a process executable
/// path, used as a rule-table key.
#[derive(Debug)]
pub struct Image {
    bytes: Vec<u8>,
}

/// The buffer an ASCII string of length below `MAX_IMAGE_LEN` encodes to:
/// its bytes, zero-padded to the full capacity.
pub open spec fn image_encoding(s: Seq<char>) -> Seq<u8> {
    Seq::new(
        MAX_IMAGE_LEN as nat,
        |i: int| if i < s.len() { s[i] as u8 } else { 0u8 },
    )
}

/// The characters an image buffer displays as: its bytes before the first
/// zero, each read as the ASCII character it stands for.
pub open spec fn display_of(bytes: Seq<u8>) -> Seq<char>
    decreases bytes.len(),
{
    if bytes.len() == 0 || bytes[0] == 0 {
        Seq::empty()
    } else {
        seq![bytes[0] as char] + display_of(bytes.skip(1))
    }
}

impl View for Image {
    type V = Seq<u8>;

    closed spec fn view(&self) -> Seq<u8> {
        self.bytes@
    }
}

impl Image {
    /// A valid image buffer: full capacity, ASCII only, and zero-padded,
    /// so it always ends with a zero byte.
    pub open spec fn wf(&self) -> bool {
        &&& self@.len() == MAX_IMAGE_LEN
        &&& forall|i: int| 0 <= i < self@.len() ==> self@[i] < 128
        &&& self@[MAX_IMAGE_LEN - 1] == 0
    }

    /// Encode a path as an image key. Fails on input outside ASCII and on
    /// input that does not leave room for the final zero byte.
    pub fn from_str(image: &str) -> (r: Result<Image, ImageError>)
        ensures
            r == Err::<Image, ImageError>(ImageError::NotAscii) <==> !image.is_ascii(),
            r == Err::<Image, ImageError>(ImageError::TooLong) <==> (image.is_ascii()
                && image@.len() >= MAX_IMAGE_LEN),
            r is Ok ==> r->Ok_0.wf() && r->Ok_0@ == image_encoding(image@),
            r is Ok <==> image.is_ascii() && image@.len() < MAX_IMAGE_LEN,
    {
        if !image.is_ascii() {
            return Err(ImageError::NotAscii);
        }
        proof {
            vstd::string::is_ascii_spec_bytes(image);
        }
        let sb = image.as_bytes();
        let n = sb.len();
        proof {
            assert(sb@.len() == image@.len());
        }
        if n >= MAX_IMAGE_LEN {
            return Err(ImageError::TooLong);
        }
        let mut bytes: Vec<u8> = Vec::new();
        let mut i: usize = 0;
        while i < n
            invariant
                image.is_ascii(),
                sb@ == image.spec_bytes(),
                n == sb@.len(),
                n == image@.len() < MAX_IMAGE_LEN,
                i <= n,
                bytes@.len() == i,
                forall|j: int| 0 <= j < i ==> bytes@[j] == image@[j] as u8,
                forall|j: int| 0 <= j < i ==> bytes@[j] < 128,
            decreases n - i,
        {
            let b = sb[i];
            proof {
                vstd::utf8::is_ascii_chars_nat_bound(image@);
                assert((image@[i as int] as nat) < 128);
                assert(b == image@[i as int] as u8);
                assert(b < 128);
            }
            bytes.push(b);
            i += 1;
        }
        while i < MAX_IMAGE_LEN
            invariant
                n <= i <= MAX_IMAGE_LEN,
                bytes@.len() == i,
                n == image@.len(),
                forall|j: int| 0 <= j < n ==> bytes@[j] == image@[j] as u8,
                forall|j: int| n <= j < i ==> bytes@[j] == 0,
                forall|j: int| 0 <= j < i ==> bytes@[j] < 128,
            decreases MAX_IMAGE_LEN - i,
        {
            bytes.push(0);
            i += 1;
        }
        let img = Image { bytes };
        proof {
            assert(img@ =~= image_encoding(image@));
        }
        Ok(img)
    }

    /// The raw key bytes, as the kernel-shared table holds them.
    pub fn as_bytes(&self) -> (r: &Vec<u8>)
        ensures
            r@ == self@,
    {
        &self.bytes
    }

    /// Whether two image keys hold the same bytes.
    pub fn same_key(&self, other: &Image) -> (r: bool)
        requires
            self.wf(),
            other.wf(),
        ensures
            r == (self@ == other@),
    {
        let mut i: usize = 0;
        while i < MAX_IMAGE_LEN
            invariant
                self.wf(),
                other.wf(),
                i <= MAX_IMAGE_LEN,
                forall|j: int| 0 <= j < i ==> self@[j] == other@[j],
            decreases MAX_IMAGE_LEN - i,
        {
            if self.bytes[i] != other.bytes[i] {
                return false;
            }
            i += 1;
        }
        proof {
            assert(self@ =~= other@);
        }
        true
    }

    /// The image as text: its bytes before the first zero, read as ASCII.
    /// A freshly encoded image displays as the path it was made from.
    pub fn display_string(&self) -> (r: String)
        requires
            self.wf(),
        ensures
            r@ == display_of(self@),
    {
        let mut prefix: Vec<u8> = Vec::new();
        let mut i: usize = 0;
        while i < MAX_IMAGE_LEN && self.bytes[i] != 0
            invariant
                self.wf(),
                i <= MAX_IMAGE_LEN,
                prefix@.len() == i,
                forall|j: int| 0 <= j < i ==> prefix@[j] == self@[j] && self@[j] != 0,
                forall|j: int| 0 <= j < i ==> prefix@[j] < 128,
            decreases MAX_IMAGE_LEN - i,
        {
            prefix.push(self.bytes[i]);
            i += 1;
        }
        proof {
            assert(i == MAX_IMAGE_LEN ==> self@[MAX_IMAGE_LEN - 1] != 0);
            assert(i < MAX_IMAGE_LEN);
            assert(prefix@ =~= self@.take(i as int));
            lemma_display_prefix(self@, i as int);
        }
        ascii_bytes_to_string(&prefix)
    }
}

impl Clone for Image {
    /// A cloned image holds the same bytes.
    fn clone(&self) -> (r: Self)
        ensures
            r@ == self@,
            self.wf() ==> r.wf(),
    {
        let mut bytes: Vec<u8> = Vec::new();
        let mut i: usize = 0;
        let n = self.bytes.len();
        while i < n
            invariant
                i <= n,
                n == self@.len(),
                bytes@.len() == i,
                forall|j: int| 0 <= j < i ==> bytes@[j] == self@[j],
            decreases n - i,
        {
            bytes.push(self.bytes[i]);
            i += 1;
        }
        let r = Image { bytes };
        proof {
            assert(r@ =~= self@);
        }
        r
    }
}

/// The characters displayed for a buffer whose first zero byte stands at
/// `n` are exactly its first `n` bytes, read as ASCII.
proof fn lemma_display_prefix(bytes: Seq<u8>, n: int)
    requires
        0 <= n <= bytes.len(),
        forall|j: int| 0 <= j < n ==> bytes[j] != 0,
        n == bytes.len() || bytes[n] == 0,
    ensures
        display_of(bytes) == bytes.take(n).map(|j: int, b: u8| b as char),
    decreases n,
{
    if n == 0 {
        assert(display_of(bytes) =~= bytes.take(0).map(|j: int, b: u8| b as char));
    } else {
        lemma_display_prefix(bytes.skip(1), n - 1);
        assert(display_of(bytes) == seq![bytes[0] as char] + display_of(bytes.skip(1)));
        assert(bytes.take(n).map(|j: int, b: u8| b as char) =~= seq![bytes[0] as char]
            + bytes.skip(1).take(n - 1).map(|j: int, b: u8| b as char));
    }
}

/// Relies on `String::from_utf8`: a buffer of ASCII bytes decodes to the
/// string whose characters are exactly those bytes.
#[verifier::external_body]
fn ascii_bytes_to_string(bytes: &Vec<u8>) -> (r: String)
    requires
        forall|i: int| 0 <= i < bytes@.len() ==> bytes@[i] < 128,
    ensures
        r@ == bytes@.map(|i: int, b: u8| b as char),
{
    String::from_utf8(bytes.clone()).unwrap_or_default()
}

} // verus!
