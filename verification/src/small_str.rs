//! The fixed-capacity, NUL-terminated strings that names are read into.

use vstd::prelude::*;

verus! {

/// How many bytes a [`SmallStr`] holds.
pub const SMALL_STR_CAPACITY: usize = 255;

/// `n` is the length of the C string held in `raw`: no NUL among its first
/// `n` bytes, and a NUL right after them unless they are all of `raw`.
pub open spec fn is_c_len(raw: Seq<u8>, n: int) -> bool {
    &&& 0 <= n <= raw.len()
    &&& forall|i: int| 0 <= i < n ==> raw[i] != 0
    &&& n < raw.len() ==> raw[n] == 0
}

/// The length of the C string held in `raw`: the index of its first NUL, or
/// all of it when it holds none.
pub open spec fn c_len(raw: Seq<u8>) -> int {
    choose|n: int| is_c_len(raw, n)
}

/// The bytes of the C string held in `raw`: those before its first NUL.
pub open spec fn c_bytes(raw: Seq<u8>) -> Seq<u8> {
    raw.take(c_len(raw))
}

/// A byte sequence holds only one C string length: any length that
/// `is_c_len` accepts is the one `c_len` picks.
pub proof fn lemma_c_len_unique(raw: Seq<u8>, n: int)
    requires
        is_c_len(raw, n),
    ensures
        c_len(raw) == n,
{
    assert(exists|m: int| is_c_len(raw, m));
    let m = c_len(raw);
    if m < n {
        assert(raw[m] != 0);
    } else if n < m {
        assert(raw[n] != 0);
    }
}

proof fn lemma_c_len_exists_from(raw: Seq<u8>, k: int)
    requires
        0 <= k <= raw.len(),
        forall|i: int| 0 <= i < k ==> raw[i] != 0,
    ensures
        exists|n: int| is_c_len(raw, n),
    decreases raw.len() - k,
{
    if k == raw.len() {
        assert(is_c_len(raw, k));
    } else if raw[k] == 0 {
        assert(is_c_len(raw, k));
    } else {
        lemma_c_len_exists_from(raw, k + 1);
    }
}

/// The string a buffer holds is the longest prefix of the buffer without a
/// NUL: it is a prefix, holds no NUL, and is followed by a NUL unless it is
/// the whole buffer.
pub proof fn lemma_c_bytes_is_nul_free_prefix(raw: Seq<u8>)
    ensures
        c_bytes(raw).len() <= raw.len(),
        c_bytes(raw) == raw.take(c_bytes(raw).len() as int),
        forall|i: int| 0 <= i < c_bytes(raw).len() ==> #[trigger] c_bytes(raw)[i] != 0,
        c_bytes(raw).len() < raw.len() ==> raw[c_bytes(raw).len() as int] == 0,
{
    lemma_c_len_exists_from(raw, 0);
    let n = c_len(raw);
    assert(is_c_len(raw, n));
    assert(c_bytes(raw).len() == n);
    assert forall|i: int| 0 <= i < c_bytes(raw).len() implies #[trigger] c_bytes(raw)[i] != 0 by {
        assert(c_bytes(raw)[i] == raw[i]);
    }
}

/// A string of at most 255 bytes, stored NUL-terminated in a buffer of 255
/// bytes, as it is read out of the game's memory. Its view is the whole
/// buffer.
pub struct SmallStr {
    raw: [u8; 255],
}

impl View for SmallStr {
    type V = Seq<u8>;

    closed spec fn view(&self) -> Seq<u8> {
        self.raw@
    }
}

impl SmallStr {
    /// The empty string: a buffer of NULs.
    pub fn new() -> (s: Self)
        ensures
            s@ == Seq::new(255, |i: int| 0u8),
            c_bytes(s@) == Seq::<u8>::empty(),
    {
        let s = SmallStr { raw: [0u8; 255] };
        assert(s@ == Seq::new(255, |i: int| 0u8));
        proof {
            lemma_c_len_unique(s@, 0);
        }
        s
    }

    /// Takes the buffer as it was read.
    pub fn from_raw(raw: [u8; 255]) -> (s: Self)
        ensures
            s@ == raw@,
    {
        SmallStr { raw }
    }

    /// The length of the string: the index of the first NUL, or 255.
    pub fn len(&self) -> (n: usize)
        ensures
            n == c_len(self@),
            n <= SMALL_STR_CAPACITY,
    {
        let mut n: usize = 0;
        while n < 255 && self.raw[n] != 0
            invariant
                0 <= n <= 255,
                self.raw@.len() == 255,
                forall|i: int| 0 <= i < n ==> self.raw@[i] != 0,
            decreases 255 - n,
        {
            n = n + 1;
        }
        proof {
            lemma_c_len_unique(self@, n as int);
        }
        n
    }

    /// The bytes of the string, those before the first NUL.
    pub fn as_bytes(&self) -> (bytes: Vec<u8>)
        ensures
            bytes@ == c_bytes(self@),
    {
        let n = self.len();
        let mut bytes: Vec<u8> = Vec::new();
        let mut i: usize = 0;
        while i < n
            invariant
                n == c_len(self@),
                n <= 255,
                self.raw@.len() == 255,
                i <= n,
                bytes@ == self@.take(i as int),
            decreases n - i,
        {
            bytes.push(self.raw[i]);
            i = i + 1;
            assert(bytes@ =~= self@.take(i as int));
        }
        bytes
    }

    /// Whether the string is exactly `text`.
    pub fn matches(&self, text: &[u8]) -> (b: bool)
        ensures
            b == (c_bytes(self@) == text@),
    {
        let n = self.len();
        if text.len() != n {
            assert(c_bytes(self@).len() == n);
            return false;
        }
        let mut i: usize = 0;
        while i < n
            invariant
                n == c_len(self@),
                n <= 255,
                self.raw@.len() == 255,
                text@.len() == n,
                i <= n,
                forall|j: int| 0 <= j < i ==> self.raw@[j] == text@[j],
            decreases n - i,
        {
            if self.raw[i] != text[i] {
                assert(c_bytes(self@)[i as int] != text@[i as int]);
                return false;
            }
            i = i + 1;
        }
        assert(c_bytes(self@) =~= text@);
        true
    }
}

} // verus!
