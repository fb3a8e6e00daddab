//! Bounded UTF-8 text: the keys and values of the storage protocol.
use vstd::prelude::*;
use vstd::string::StringSliceAdditionalSpecFns;
use vstd::utf8::{encode_utf8_valid_utf8, valid_utf8};

verus! {

/// Largest key, in bytes.
pub const MAX_KEY_SIZE: usize = 32;

/// Largest value, in bytes.
pub const MAX_VALUE_SIZE: usize = 256;

/// Why bytes could not become bounded text.
#[derive(Clone, Copy, Debug, PartialEq, Eq, Structural)]
pub enum TextError {
    /// More bytes than the capacity.
    TooLong,
    /// The bytes are not well-formed UTF-8.
    InvalidText,
}

/// Bytes that fit in `cap` and are well-formed UTF-8.
pub open spec fn is_text(bytes: Seq<u8>, cap: nat) -> bool {
    bytes.len() <= cap && valid_utf8(bytes)
}

/// Relies on `core::str::from_utf8`: it succeeds exactly on well-formed UTF-8.
#[verifier::external_body]
fn is_utf8(bytes: &[u8]) -> (r: bool)
    ensures
        r == valid_utf8(bytes@),
{
    core::str::from_utf8(bytes).is_ok()
}

/// UTF-8 text of at most `N` bytes. Never truncated: bytes that do not fit
/// are refused.
#[derive(Debug, PartialEq, Eq, Hash)]
pub struct BoundedText<const N: usize> {
    bytes: Vec<u8>,
}

/// A key of the storage protocol.
pub type Key = BoundedText<MAX_KEY_SIZE>;

/// A value of the storage protocol.
pub type Value = BoundedText<MAX_VALUE_SIZE>;

impl<const N: usize> View for BoundedText<N> {
    type V = Seq<u8>;

    closed spec fn view(&self) -> Seq<u8> {
        self.bytes@
    }
}

impl<const N: usize> Clone for BoundedText<N> {
    fn clone(&self) -> (r: Self)
        ensures
            r@ == self@,
    {
        proof {
            use_type_invariant(self);
        }
        BoundedText { bytes: self.bytes.clone() }
    }
}

impl<const N: usize> BoundedText<N> {
    #[verifier::type_invariant]
    spec fn inv(&self) -> bool {
        is_text(self.bytes@, N as nat)
    }

    /// Copies `bytes`; fails with `TooLong` past `N` bytes, else with
    /// `InvalidText` when they are not UTF-8.
    pub fn from_bytes(bytes: &[u8]) -> (r: Result<Self, TextError>)
        ensures
            bytes@.len() > N ==> r == Err::<Self, TextError>(TextError::TooLong),
            bytes@.len() <= N && !valid_utf8(bytes@) ==> r == Err::<Self, TextError>(
                TextError::InvalidText,
            ),
            is_text(bytes@, N as nat) ==> r is Ok && r->Ok_0@ == bytes@,
    {
        if bytes.len() > N {
            return Err(TextError::TooLong);
        }
        if !is_utf8(bytes) {
            return Err(TextError::InvalidText);
        }
        let mut v: Vec<u8> = Vec::new();
        let n: usize = bytes.len();
        let mut i: usize = 0;
        while i < n
            invariant
                n == bytes@.len(),
                i <= n,
                v@ == bytes@.subrange(0, i as int),
            decreases n - i,
        {
            v.push(bytes[i]);
            i += 1;
            assert(v@ =~= bytes@.subrange(0, i as int));
        }
        assert(v@ =~= bytes@);
        Ok(BoundedText { bytes: v })
    }

    /// The UTF-8 bytes of `s`; fails with `TooLong` past `N` bytes.
    pub fn from_text(s: &str) -> (r: Result<Self, TextError>)
        ensures
            s.spec_bytes().len() > N ==> r == Err::<Self, TextError>(TextError::TooLong),
            s.spec_bytes().len() <= N ==> r is Ok && r->Ok_0@ == s.spec_bytes(),
    {
        proof {
            encode_utf8_valid_utf8(s@);
        }
        Self::from_bytes(s.as_bytes())
    }

    /// The text's bytes.
    pub fn as_bytes(&self) -> (r: &[u8])
        ensures
            r@ == self@,
            is_text(self@, N as nat),
    {
        proof {
            use_type_invariant(self);
        }
        self.bytes.as_slice()
    }

    /// The text's bytes, taken out.
    pub fn into_bytes(self) -> (r: Vec<u8>)
        ensures
            r@ == self@,
            is_text(self@, N as nat),
    {
        proof {
            use_type_invariant(&self);
        }
        self.bytes
    }

    /// Its length in bytes.
    pub fn len(&self) -> (r: usize)
        ensures
            r == self@.len(),
    {
        self.bytes.len()
    }
}

} // verus!
