//! A Caesar cipher over the 128 ASCII characters.

use crate::text::trimmed;
use vstd::prelude::*;

verus! {

/// How many characters ASCII has.
pub const ASCII_ALPHABET_LEN: i32 = 128;

/// Whether the text is put into cipher or taken out of it.
#[derive(Debug, Clone, Copy, PartialEq, Eq, Structural)]
pub enum CipherMode {
    Encrypt,
    Decrypt,
}

/// The character `shift` places after `c` in ASCII, going round from the last
/// character to the first; a negative `shift` goes backwards. A character
/// outside ASCII stays as it is.
pub open spec fn shifted(c: char, shift: int) -> char {
    if (c as int) < 128 {
        (((c as int) + shift) % 128) as char
    } else {
        c
    }
}

/// The text with every character shifted.
pub open spec fn ciphered(text: Seq<char>, shift: int) -> Seq<char> {
    text.map_values(|c: char| shifted(c, shift))
}

/// Shifts one character by `shift` places within ASCII.
pub fn shift_char(c: char, shift: i32) -> (out: char)
    ensures
        out == shifted(c, shift as int),
{
    let pos = c as u32;
    if pos >= 128 {
        return c;
    }
    let moved = (pos as i64 + shift as i64) % 128;
    let wrapped = if moved < 0 {
        moved + 128
    } else {
        moved
    };
    (wrapped as u8) as char
}

/// Shifts every character of the text by `shift` places within ASCII.
pub fn apply_cipher(text: &str, shift: i32) -> (out: String)
    ensures
        out@ == ciphered(text@, shift as int),
{
    broadcast use vstd::string::group_string_axioms;

    let mut out = String::new();
    for c in it: text.chars()
        invariant
            it.seq() == text@,
            out@ == ciphered(text@.take(it.index()), shift as int),
    {
        assert(text@.take(it.index() + 1) == text@.take(it.index()).push(c));
        out.push(shift_char(c, shift));
    }
    assert(text@.take(text@.len() as int) == text@);
    out
}

impl CipherMode {
    /// The mode as a word.
    pub open spec fn name_text(self) -> Seq<char> {
        match self {
            CipherMode::Encrypt => "encrypt"@,
            CipherMode::Decrypt => "decrypt"@,
        }
    }

    /// The mode as a word.
    pub fn name(&self) -> (text: &'static str)
        ensures
            text@ == self.name_text(),
    {
        match self {
            CipherMode::Encrypt => "encrypt",
            CipherMode::Decrypt => "decrypt",
        }
    }
}

/// The mode that a line of input chooses: `e` to encrypt, `d` to decrypt.
pub open spec fn mode_of(word: Seq<char>) -> Option<CipherMode> {
    if word == "e"@ {
        Some(CipherMode::Encrypt)
    } else if word == "d"@ {
        Some(CipherMode::Decrypt)
    } else {
        None
    }
}

/// The mode that `word` chooses, taken as it is.
pub fn mode_from_word(word: &str) -> (mode: Option<CipherMode>)
    ensures
        mode == mode_of(word@),
{
    if word.eq("e") {
        Some(CipherMode::Encrypt)
    } else if word.eq("d") {
        Some(CipherMode::Decrypt)
    } else {
        None
    }
}

/// Reads the mode from a line of input, white space around it dropped.
pub fn parse_cipher_mode(input: &str) -> (mode: Option<CipherMode>)
    ensures
        mode == mode_of(trimmed(input@)),
{
    mode_from_word(input.trim())
}

/// The shift that a mode applies: `shift` itself to encrypt, its negative to
/// decrypt.
pub open spec fn signed_shift(mode: CipherMode, shift: int) -> int {
    match mode {
        CipherMode::Encrypt => shift,
        CipherMode::Decrypt => -shift,
    }
}

/// Puts a text into cipher or takes it out again.
pub fn run_cipher(mode: CipherMode, text: &str, shift: i32) -> (out: String)
    requires
        mode == CipherMode::Decrypt ==> shift > i32::MIN,
    ensures
        out@ == ciphered(text@, signed_shift(mode, shift as int)),
{
    match mode {
        CipherMode::Encrypt => apply_cipher(text, shift),
        CipherMode::Decrypt => apply_cipher(text, -shift),
    }
}

/// Shifting back undoes shifting: a character shifted by `shift` and then by
/// `-shift` is the character itself.
pub proof fn lemma_shift_back(c: char, shift: int)
    ensures
        shifted(shifted(c, shift), -shift) == c,
{
    if (c as int) < 128 {
        let moved = ((c as int) + shift) % 128;
        assert(0 <= moved < 128);
        assert((moved as char) as int == moved);
        assert((moved - shift) % 128 == c as int) by {
            vstd::arithmetic::div_mod::lemma_fundamental_div_mod((c as int) + shift, 128);
            let q = ((c as int) + shift) / 128;
            assert(moved - shift == (c as int) + 128 * (-q));
            vstd::arithmetic::div_mod::lemma_fundamental_div_mod_converse(
                moved - shift,
                128,
                -q,
                c as int,
            );
        }
    }
}

/// Decrypting undoes encrypting: a text shifted by `shift` and then by
/// `-shift` is the text itself.
pub proof fn lemma_decrypt_undoes_encrypt(text: Seq<char>, shift: int)
    ensures
        ciphered(ciphered(text, shift), -shift) == text,
{
    assert forall|i: int| 0 <= i < text.len() implies ciphered(ciphered(text, shift), -shift)[i]
        == text[i] by {
        lemma_shift_back(text[i], shift);
    }
}

} // verus!
