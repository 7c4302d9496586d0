//! Small helpers around `std` text primitives that vstd leaves unspecified.

use vstd::prelude::*;

verus! {

/// Relies on `char::from_u32` of std: it returns `Some` exactly for Unicode
/// scalar values, and then the `char` with that value.
#[verifier::external_body]
pub(crate) fn char_from_u32(v: u32) -> (r: Option<char>)
    ensures
        r == (if vstd::utf8::is_scalar(v) {
            Some(v as char)
        } else {
            None::<char>
        }),
{
    char::from_u32(v)
}

/// A `char` for a `u32` already known to be a Unicode scalar value.
pub(crate) fn scalar_to_char(v: u32) -> (c: char)
    requires
        vstd::utf8::is_scalar(v),
    ensures
        c == (v as char),
{
    match char_from_u32(v) {
        Some(c) => c,
        None => vstd::pervasive::unreached(),
    }
}

/// Relies on `str::chars` of std, collected: the characters of the string in
/// order.
#[verifier::external_body]
pub(crate) fn str_to_chars(s: &str) -> (r: Vec<char>)
    ensures
        r@ == s@,
{
    s.chars().collect()
}

/// Relies on `String::from_iter` of std: the string holding exactly the given
/// characters in order.
#[verifier::external_body]
pub(crate) fn chars_to_string(v: &Vec<char>) -> (r: String)
    ensures
        r@ == v@,
{
    v.iter().collect()
}

/// External iterator for a string's characters with the byte offset range
/// each of them occupies.
pub struct StrCharIndexIterator<'r> {
    index: usize,
    chars: core::str::Chars<'r>,
}

impl<'r> StrCharIndexIterator<'r> {
    /// The byte offset reached so far, for contracts.
    pub closed spec fn spec_index(self) -> usize {
        self.index
    }

    /// The next character with its byte offset range: the range starts at
    /// the previous offset and is as wide as the character's UTF-8 form.
    pub fn next(&mut self) -> (r: Option<((usize, usize), char)>)
        ensures
            (match r {
                Some(((lo, hi), ch)) => {
                    &&& lo == old(self).spec_index()
                    &&& hi == final(self).spec_index()
                    &&& lo <= hi
                    &&& hi - lo <= crate::codec::utf_8::utf8_bytes(ch as u32).len()
                },
                None => final(self).spec_index() == old(self).spec_index(),
            }),
    {
        if let Some(ch) = self.chars.next() {
            let u = ch as u32;
            let width: usize = if u < 0x80 {
                1
            } else if u < 0x800 {
                2
            } else if u < 0x10000 {
                3
            } else {
                4
            };
            let prev = self.index;
            let next = if self.index <= usize::MAX - width {
                self.index + width
            } else {
                self.index
            };
            self.index = next;
            Some(((prev, next), ch))
        } else {
            None
        }
    }
}

/// A trait providing an `index_iter` method.
pub trait StrCharIndex<'r> {
    /// Iterates over each character with its corresponding byte offset
    /// range.
    fn index_iter(&self) -> StrCharIndexIterator<'r>;
}

impl<'r> StrCharIndex<'r> for &'r str {
    fn index_iter(&self) -> StrCharIndexIterator<'r> {
        StrCharIndexIterator { index: 0, chars: self.chars() }
    }
}

} // verus!
