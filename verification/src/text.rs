//! Text of bounded length, as it travels in a Wi-Fi configuration.

use vstd::prelude::*;
use vstd::std_specs::cmp::PartialEqSpecImpl;
use vstd::utf8::encode_utf8;

verus! {

/// The text is longer than the capacity of the [`String`] that should hold it.
#[derive(Debug, Copy, Clone, PartialEq, Eq)]
pub struct CapacityError;

/// UTF-8 text of at most `N` bytes.
#[derive(Debug)]
pub struct String<const N: usize> {
    text: std::string::String,
}

impl<const N: usize> View for String<N> {
    type V = Seq<char>;

    closed spec fn view(&self) -> Seq<char> {
        self.text@
    }
}

impl<const N: usize> String<N> {
    #[verifier::type_invariant]
    spec fn within_capacity(self) -> bool {
        encode_utf8(self.text@).len() <= N
    }

    /// The empty text.
    pub fn new() -> (text: Self)
        ensures
            text@ == Seq::<char>::empty(),
    {
        let text = std::string::String::new();
        assert(encode_utf8(text@).len() == 0) by {
            assert(encode_utf8(Seq::<char>::empty()) =~= Seq::<u8>::empty());
        }
        String { text }
    }

    /// The text as a string slice.
    pub fn as_str(&self) -> (s: &str)
        ensures
            s@ == self@,
    {
        self.text.as_str()
    }

    /// Number of bytes of the text in UTF-8, which the capacity bounds.
    pub fn len(&self) -> (n: usize)
        ensures
            n == encode_utf8(self@).len(),
            n <= N,
    {
        proof {
            use_type_invariant(self);
        }
        self.text.as_str().as_bytes().len()
    }

    /// Copies `s`, or fails where its UTF-8 form has more than `N` bytes.
    pub fn try_from(s: &str) -> (result: Result<Self, CapacityError>)
        ensures
            result is Ok <==> encode_utf8(s@).len() <= N,
            result matches Ok(text) ==> text@ == s@,
    {
        if s.as_bytes().len() > N {
            Err(CapacityError)
        } else {
            Ok(String { text: s.to_owned() })
        }
    }
}

impl<const N: usize> Clone for String<N> {
    fn clone(&self) -> (copy: Self)
        ensures
            copy == *self,
    {
        proof {
            use_type_invariant(self);
        }
        String { text: self.text.clone() }
    }
}

impl<const N: usize> PartialEq for String<N> {
    fn eq(&self, other: &Self) -> (equal: bool) {
        self.text == other.text
    }
}

impl<const N: usize> Eq for String<N> {
}

impl<const N: usize> PartialEqSpecImpl for String<N> {
    open spec fn obeys_eq_spec() -> bool {
        true
    }

    open spec fn eq_spec(&self, other: &Self) -> bool {
        self@ == other@
    }
}

} // verus!
