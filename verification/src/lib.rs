//! A Caesar cipher over uppercase ASCII letters and spaces.
//!
//! A [`Caesar`] value holds a shift amount, used modulo 26. `encrypt`
//! rotates each letter forward by the shift and `decrypt` rotates it back;
//! both first normalize lowercase letters to uppercase and leave spaces in
//! place. Input containing any character outside the 26 Latin letters
//! (either case) and the space is rejected with `None` rather than being
//! pushed through letter arithmetic.

use vstd::prelude::*;

verus! {

/// True of the 26 uppercase Latin letters.
pub open spec fn is_uppercase_letter(c: char) -> bool {
    65 <= c as u32 && c as u32 <= 90
}

/// True of the 26 lowercase Latin letters.
pub open spec fn is_lowercase_letter(c: char) -> bool {
    97 <= c as u32 && c as u32 <= 122
}

/// The characters the cipher is defined on: letters of either case and the space.
pub open spec fn in_alphabet(c: char) -> bool {
    is_uppercase_letter(c) || is_lowercase_letter(c) || c == ' '
}

/// A lowercase letter mapped to its uppercase form; any other character unchanged.
pub open spec fn normalized(c: char) -> char {
    if is_lowercase_letter(c) {
        (c as u32 - 32) as char
    } else {
        c
    }
}

/// A message is well formed when every character is in the cipher's alphabet.
pub open spec fn msg_wf(s: Seq<char>) -> bool {
    forall|i: int| 0 <= i < s.len() ==> in_alphabet(s[i])
}

/// Uppercase normalization of a whole message.
pub open spec fn normalize_spec(s: Seq<char>) -> Seq<char> {
    s.map_values(|c: char| normalized(c))
}

/// An uppercase letter rotated forward by `shift` positions, wrapping at 'Z';
/// the space unchanged.
pub open spec fn shift_forward(c: char, shift: u32) -> char {
    if c == ' ' {
        ' '
    } else {
        (((c as u32 - 65) + shift as int % 26) % 26 + 65) as char
    }
}

/// An uppercase letter rotated backward by `shift` positions, wrapping at 'A';
/// the space unchanged.
pub open spec fn shift_back(c: char, shift: u32) -> char {
    if c == ' ' {
        ' '
    } else {
        (((c as u32 - 65) + 26 - shift as int % 26) % 26 + 65) as char
    }
}

/// What `encrypt` produces: each character uppercased, then rotated forward.
pub open spec fn encrypt_spec(s: Seq<char>, shift: u32) -> Seq<char> {
    s.map_values(|c: char| shift_forward(normalized(c), shift))
}

/// What `decrypt` produces: each character uppercased, then rotated backward.
pub open spec fn decrypt_spec(s: Seq<char>, shift: u32) -> Seq<char> {
    s.map_values(|c: char| shift_back(normalized(c), shift))
}

/// Relies on String::push: appends the given character to the end of the string.
#[verifier::external_body]
fn push_char(s: &mut String, c: char)
    ensures
        final(s)@ == old(s)@.push(c),
{
    s.push(c)
}

/// A substitution cipher that rotates letters by a fixed shift amount.
pub struct Caesar {
    shift: u32,
}

impl Caesar {
    /// The stored shift amount.
    pub closed spec fn spec_shift(self) -> u32 {
        self.shift
    }

    /// Builds a cipher with the given shift; any value is accepted.
    pub fn new(shift: u32) -> (r: Self)
        ensures
            r.spec_shift() == shift,
    {
        Self { shift }
    }

    /// Replaces the stored shift unconditionally.
    pub fn set_shift(&mut self, shift: u32)
        ensures
            final(self).spec_shift() == shift,
    {
        self.shift = shift;
    }

    /// Encrypts a message: uppercases it, rotates every letter forward by the
    /// shift (modulo 26) and keeps spaces in place. Returns `None` exactly
    /// when the message holds a character outside letters and spaces.
    pub fn encrypt(&self, msg: &str) -> (result: Option<String>)
        ensures
            result is Some <==> msg_wf(msg@),
            result is Some ==> result->Some_0@ == encrypt_spec(msg@, self.spec_shift()),
    {
        let len = msg.unicode_len();
        let mut out = String::new();
        let mut i: usize = 0;
        while i < len
            invariant
                i <= len,
                len == msg@.len(),
                forall|j: int| 0 <= j < i ==> in_alphabet(msg@[j]),
                out@ == encrypt_spec(msg@.take(i as int), self.spec_shift()),
            decreases len - i,
        {
            let c = msg.get_char(i);
            let code = c as u32;
            if code == 32 {
                push_char(&mut out, ' ');
            } else {
                let up = if 97 <= code && code <= 122 {
                    code - 32
                } else {
                    code
                };
                if 65 <= up && up <= 90 {
                    let shifted: u32 = (up - 65 + self.shift % 26) % 26 + 65;
                    push_char(&mut out, shifted as u8 as char);
                } else {
                    return None;
                }
            }
            i += 1;
        }
        Some(out)
    }

    /// Decrypts a message: uppercases it, rotates every letter backward by the
    /// shift (modulo 26) and keeps spaces in place. Returns `None` exactly
    /// when the message holds a character outside letters and spaces.
    pub fn decrypt(&self, enc: &str) -> (result: Option<String>)
        ensures
            result is Some <==> msg_wf(enc@),
            result is Some ==> result->Some_0@ == decrypt_spec(enc@, self.spec_shift()),
    {
        let len = enc.unicode_len();
        let mut out = String::new();
        let mut i: usize = 0;
        while i < len
            invariant
                i <= len,
                len == enc@.len(),
                forall|j: int| 0 <= j < i ==> in_alphabet(enc@[j]),
                out@ == decrypt_spec(enc@.take(i as int), self.spec_shift()),
            decreases len - i,
        {
            let c = enc.get_char(i);
            let code = c as u32;
            if code == 32 {
                push_char(&mut out, ' ');
            } else {
                let up = if 97 <= code && code <= 122 {
                    code - 32
                } else {
                    code
                };
                if 65 <= up && up <= 90 {
                    let shifted: u32 = (up - 65 + 26 - self.shift % 26) % 26 + 65;
                    push_char(&mut out, shifted as u8 as char);
                } else {
                    return None;
                }
            }
            i += 1;
        }
        Some(out)
    }
}

impl Default for Caesar {
    /// Builds a cipher with the default shift of 10.
    fn default() -> (r: Self)
        ensures
            r.spec_shift() == 10,
    {
        Self { shift: 10 }
    }
}

/// Round trip: decrypting the encryption of a well-formed message, with the
/// same shift, yields the uppercase form of the message, for every shift.
pub proof fn lemma_round_trip(msg: Seq<char>, shift: u32)
    requires
        msg_wf(msg),
    ensures
        decrypt_spec(encrypt_spec(msg, shift), shift) == normalize_spec(msg),
{
    assert(decrypt_spec(encrypt_spec(msg, shift), shift) =~= normalize_spec(msg));
}

/// Space preservation: a space in the input stays a space, at the same
/// position, under both encryption and decryption.
pub proof fn lemma_space_preserved(msg: Seq<char>, shift: u32, i: int)
    requires
        0 <= i < msg.len(),
        msg[i] == ' ',
    ensures
        encrypt_spec(msg, shift)[i] == ' ',
        decrypt_spec(msg, shift)[i] == ' ',
{
}

/// Case normalization: a message and its uppercase form encrypt (and
/// decrypt) to the same output.
pub proof fn lemma_case_insensitive(msg: Seq<char>, shift: u32)
    ensures
        encrypt_spec(normalize_spec(msg), shift) == encrypt_spec(msg, shift),
        decrypt_spec(normalize_spec(msg), shift) == decrypt_spec(msg, shift),
{
    assert(encrypt_spec(normalize_spec(msg), shift) =~= encrypt_spec(msg, shift));
    assert(decrypt_spec(normalize_spec(msg), shift) =~= decrypt_spec(msg, shift));
}

/// Shift wraparound: a shift of 26 transforms every message exactly as a
/// shift of 0 does.
pub proof fn lemma_shift_wraparound(msg: Seq<char>)
    ensures
        encrypt_spec(msg, 26) == encrypt_spec(msg, 0),
        decrypt_spec(msg, 26) == decrypt_spec(msg, 0),
{
    assert(encrypt_spec(msg, 26) =~= encrypt_spec(msg, 0));
    assert(decrypt_spec(msg, 26) =~= decrypt_spec(msg, 0));
}

/// Shift 0 is the identity on well-formed messages, up to uppercasing.
pub proof fn lemma_zero_shift_identity(msg: Seq<char>)
    requires
        msg_wf(msg),
    ensures
        encrypt_spec(msg, 0) == normalize_spec(msg),
{
    assert(encrypt_spec(msg, 0) =~= normalize_spec(msg));
}

/// Default equivalence: a cipher built by default carries shift 10, so it
/// transforms every message exactly as one built explicitly with shift 10.
pub proof fn lemma_default_equivalence(by_default: Caesar, explicit: Caesar, msg: Seq<char>)
    requires
        by_default.spec_shift() == 10,
        explicit.spec_shift() == 10,
    ensures
        encrypt_spec(msg, by_default.spec_shift()) == encrypt_spec(msg, explicit.spec_shift()),
        decrypt_spec(msg, by_default.spec_shift()) == decrypt_spec(msg, explicit.spec_shift()),
{
}

} // verus!
