//! Strings as the foreign layer wants them, and its status convention.

use vstd::prelude::*;
use vstd::slice::{slice_subrange, slice_to_vec};
use crate::error::Error;

verus! {

/// Whether two byte strings are the same.
pub fn bytes_eq(a: &[u8], b: &[u8]) -> (r: bool)
    ensures
        r == (a@ == b@),
{
    if a.len() != b.len() {
        return false;
    }
    let mut i: usize = 0;
    while i < a.len()
        invariant
            a@.len() == b@.len(),
            0 <= i <= a.len(),
            forall|k: int| 0 <= k < i ==> a@[k] == b@[k],
        decreases a.len() - i,
    {
        if a[i] != b[i] {
            return false;
        }
        i += 1;
    }
    proof {
        assert(a@ =~= b@);
    }
    true
}

/// A copy of a byte string.
pub fn clone_bytes(v: &[u8]) -> (r: Vec<u8>)
    ensures
        r@ == v@,
{
    slice_to_vec(v)
}

/// The bytes of a text written in ASCII: of each character its code.
pub open spec fn ascii(text: Seq<char>) -> Seq<u8> {
    Seq::new(text.len(), |i: int| text[i] as u8)
}

/// Whether a string holds a zero byte.
pub open spec fn has_nul(s: Seq<u8>) -> bool {
    exists|i: int| 0 <= i < s.len() && s[i] == 0
}

/// The place of the first byte `b` in a buffer, or the buffer's length where
/// it holds none.
pub open spec fn first_index(buf: Seq<u8>, b: u8) -> int
    decreases buf.len(),
{
    if buf.len() == 0 || buf[0] == b {
        0
    } else {
        1 + first_index(buf.skip(1), b)
    }
}

/// `first_index` is in range, no byte before it is `b`, and the byte at it
/// is `b` where there is one.
pub proof fn lemma_first_index(buf: Seq<u8>, b: u8)
    ensures
        0 <= first_index(buf, b) <= buf.len(),
        forall|i: int| 0 <= i < first_index(buf, b) ==> buf[i] != b,
        first_index(buf, b) < buf.len() ==> buf[first_index(buf, b)] == b,
    decreases buf.len(),
{
    if buf.len() == 0 || buf[0] == b {
    } else {
        let rest = buf.skip(1);
        lemma_first_index(rest, b);
        assert forall|i: int| 0 <= i < first_index(buf, b) implies buf[i] != b by {
            if i > 0 {
                assert(buf[i] == rest[i - 1]);
            }
        }
        if first_index(buf, b) < buf.len() {
            assert(buf[first_index(buf, b)] == rest[first_index(rest, b)]);
        }
    }
}

/// Finds the first byte `b` in a buffer.
pub fn find_byte(buf: &[u8], b: u8) -> (n: usize)
    ensures
        n == first_index(buf@, b),
        n <= buf@.len(),
{
    let mut n: usize = 0;
    proof {
        assert(buf@.skip(0) =~= buf@);
    }
    while n < buf.len() && buf[n] != b
        invariant
            0 <= n <= buf.len(),
            first_index(buf@, b) == n + first_index(buf@.skip(n as int), b),
        decreases buf.len() - n,
    {
        proof {
            assert(buf@.skip(n as int).skip(1) =~= buf@.skip(n + 1));
        }
        n += 1;
    }
    n
}

/// The length of the C string that starts a buffer: the number of bytes
/// before its first zero byte, or all of them where it holds none.
pub open spec fn c_str_len(buf: Seq<u8>) -> int {
    first_index(buf, 0)
}

/// The C string that starts a buffer, without its terminator.
pub open spec fn c_str_bytes(buf: Seq<u8>) -> Seq<u8> {
    buf.take(c_str_len(buf))
}

/// The C string that starts a buffer holds no zero byte.
pub proof fn lemma_c_str_len(buf: Seq<u8>)
    ensures
        0 <= c_str_len(buf) <= buf.len(),
        !has_nul(c_str_bytes(buf)),
{
    lemma_first_index(buf, 0);
}

/// A string that ends at its first zero byte is read back whole: the bytes
/// before the terminator are the C string of the terminated buffer.
pub proof fn lemma_c_str_of_terminated(s: Seq<u8>)
    requires
        !has_nul(s),
    ensures
        c_str_len(s.push(0)) == s.len(),
        c_str_bytes(s.push(0)) == s,
{
    let buf = s.push(0);
    lemma_first_index(buf, 0);
    let n = first_index(buf, 0);
    if n < s.len() {
        assert(s[n] == 0);
        assert(has_nul(s));
    }
    if n > s.len() {
        assert(buf[s.len() as int] == 0);
    }
    assert(buf.take(s.len() as int) =~= s);
}

/// A string without a zero byte still has none after a nonzero byte is put
/// behind it.
pub proof fn lemma_push_keeps_nul_free(s: Seq<u8>, b: u8)
    requires
        !has_nul(s),
        b != 0,
    ensures
        !has_nul(s.push(b)),
{
    let t = s.push(b);
    if has_nul(t) {
        let k = choose|k: int| 0 <= k < t.len() && t[k] == 0;
        if k < s.len() {
            assert(s[k] == 0);
        }
    }
}

/// A byte string in the form in which it crosses to the foreign layer:
/// followed by one zero byte and with none inside.
#[derive(Debug, PartialEq, Eq)]
pub struct CString {
    bytes: Vec<u8>,
}

impl View for CString {
    type V = Seq<u8>;

    /// The string, without its terminator.
    closed spec fn view(&self) -> Seq<u8> {
        self.bytes@.drop_last()
    }
}

impl CString {
    #[verifier::type_invariant]
    spec fn terminated(self) -> bool {
        &&& self.bytes@.len() >= 1
        &&& self.bytes@.last() == 0
        &&& !has_nul(self.bytes@.drop_last())
    }

    /// The bytes that the foreign layer reads: the string and its terminator.
    pub fn as_bytes_with_nul(&self) -> (r: &[u8])
        ensures
            r@ == self@.push(0),
            !has_nul(self@),
    {
        proof {
            use_type_invariant(self);
            assert(self.bytes@ =~= self.bytes@.drop_last().push(0));
        }
        self.bytes.as_slice()
    }
}

impl Clone for CString {
    fn clone(&self) -> (r: Self)
        ensures
            r@ == self@,
    {
        proof {
            use_type_invariant(self);
        }
        CString { bytes: clone_bytes(self.bytes.as_slice()) }
    }
}

/// Puts a string into the foreign layer's form. A string that holds a zero
/// byte has no such form and is refused; any other comes back unchanged.
pub fn os_str_to_cstring(s: &[u8]) -> (r: Result<CString, Error>)
    ensures
        match r {
            Ok(c) => !has_nul(s@) && c@ == s@,
            Err(e) => has_nul(s@) && e == Error::InvalidInput,
        },
{
    let mut bytes: Vec<u8> = Vec::new();
    let mut i: usize = 0;
    while i < s.len()
        invariant
            0 <= i <= s.len(),
            bytes@ == s@.take(i as int),
            !has_nul(s@.take(i as int)),
        decreases s.len() - i,
    {
        if s[i] == 0 {
            return Err(Error::InvalidInput);
        }
        bytes.push(s[i]);
        proof {
            assert(s@.take(i + 1) =~= s@.take(i as int).push(s@[i as int]));
            lemma_push_keeps_nul_free(s@.take(i as int), s@[i as int]);
        }
        i += 1;
    }
    proof {
        assert(s@.take(i as int) =~= s@);
    }
    bytes.push(0);
    proof {
        assert(bytes@.drop_last() =~= s@);
    }
    Ok(CString { bytes })
}

/// Puts two strings into the foreign layer's form, the first one first. If
/// either holds a zero byte, both are refused.
pub fn os_strs_to_cstrings(a: &[u8], b: &[u8]) -> (r: Result<(CString, CString), Error>)
    ensures
        match r {
            Ok(p) => !has_nul(a@) && !has_nul(b@) && p.0@ == a@ && p.1@ == b@,
            Err(e) => (has_nul(a@) || has_nul(b@)) && e == Error::InvalidInput,
        },
{
    let first = match os_str_to_cstring(a) {
        Ok(c) => c,
        Err(e) => {
            return Err(e);
        },
    };
    let second = match os_str_to_cstring(b) {
        Ok(c) => c,
        Err(e) => {
            return Err(e);
        },
    };
    Ok((first, second))
}

/// Reads the C string that starts a buffer of the foreign layer: the bytes
/// before the first zero byte (all of them where there is none).
pub fn ptr_to_os_str_unchecked(buf: &[u8]) -> (r: &[u8])
    ensures
        r@ == c_str_bytes(buf@),
{
    let n = find_byte(buf, 0);
    proof {
        assert(buf@.subrange(0, n as int) =~= buf@.take(n as int));
    }
    slice_subrange(buf, 0, n)
}

/// Reads a string that the foreign layer may have left out: nothing for a
/// null answer, the C string that starts the buffer otherwise.
pub fn ptr_to_os_str<'a>(buf: Option<&'a [u8]>) -> (r: Option<&'a [u8]>)
    ensures
        match buf {
            Some(b) => r.is_some() && r.unwrap()@ == c_str_bytes(b@),
            None => r.is_none(),
        },
{
    match buf {
        Some(b) => Some(ptr_to_os_str_unchecked(b)),
        None => None,
    }
}

/// What a foreign status means: zero is success, anything else a system error
/// that carries the status.
pub open spec fn spec_errno_to_result(status: i32) -> Result<(), Error> {
    if status == 0 {
        Ok(())
    } else {
        Err(Error::System { code: status })
    }
}

/// Converts the status that a foreign operation returned.
pub fn errno_to_result(status: i32) -> (r: Result<(), Error>)
    ensures
        r == spec_errno_to_result(status),
{
    if status == 0 {
        Ok(())
    } else {
        Err(Error::System { code: status })
    }
}

} // verus!
