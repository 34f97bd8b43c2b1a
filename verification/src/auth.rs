//! Credential checking: the capability a server is configured with, and
//! the built-in check against one configured pair.

use vstd::prelude::*;
use vstd::utf8::encode_utf8;

verus! {

/// Decides whether a username and password are accepted.
///
/// An implementation is a pure function of the two strings: `accepts`
/// names its answer, and `authenticate` computes exactly that answer.
pub trait Authentication: Send + Sync {
    /// The verdict on a pair of credentials.
    spec fn accepts(&self, username: Seq<char>, password: Seq<char>) -> bool;

    /// Returns the verdict on `username` and `password`.
    fn authenticate(&self, username: &str, password: &str) -> (ok: bool)
        ensures
            ok == self.accepts(username@, password@),
    ;
}

/// Compares two byte strings without stopping at the first difference.
pub fn constant_time_eq(a: &[u8], b: &[u8]) -> (same: bool)
    ensures
        same == (a@ == b@),
{
    if a.len() != b.len() {
        return false;
    }
    let mut diff: u8 = 0;
    let mut i: usize = 0;
    while i < a.len()
        invariant
            a@.len() == b@.len(),
            i <= a@.len(),
            diff == 0 <==> (forall|j: int| 0 <= j < i ==> a@[j] == b@[j]),
        decreases a@.len() - i,
    {
        let x: u8 = a[i];
        let y: u8 = b[i];
        let ghost before = diff;
        diff = diff | (x ^ y);
        proof {
            assert((before | (x ^ y)) == 0u8 <==> (before == 0u8 && x == y)) by (bit_vector);
        }
        i += 1;
    }
    proof {
        if diff == 0 {
            assert(a@ =~= b@);
        }
    }
    diff == 0
}

/// One configured username and password.
pub struct SimpleUserPassword {
    pub username: String,
    pub password: String,
}

impl Authentication for SimpleUserPassword {
    open spec fn accepts(&self, username: Seq<char>, password: Seq<char>) -> bool {
        username == self.username@ && password == self.password@
    }

    fn authenticate(&self, username: &str, password: &str) -> (ok: bool) {
        let user_same = constant_time_eq(username.as_bytes(), self.username.as_str().as_bytes());
        let pass_same = constant_time_eq(password.as_bytes(), self.password.as_str().as_bytes());
        proof {
            lemma_encoding_injective(username@, self.username@);
            lemma_encoding_injective(password@, self.password@);
        }
        user_same && pass_same
    }
}

/// Two strings have the same UTF-8 encoding only if they are the same.
pub proof fn lemma_encoding_injective(a: Seq<char>, b: Seq<char>)
    ensures
        encode_utf8(a) == encode_utf8(b) <==> a == b,
{
    vstd::utf8::encode_utf8_decode_utf8(a);
    vstd::utf8::encode_utf8_decode_utf8(b);
}

} // verus!
