//! The names of the entries of an archive.
//!
//! An encrypted entry goes by a name of 32 hexadecimal digits, which may
//! carry the ending `.bin`.

pub use crate::cipher::{decrypt, make_key};

use crate::strings::{
    char_is_whitespace, chars_of, ends_with, is_whitespace, slice_of, starts_with,
};
use vstd::prelude::*;

verus! {

/// The MD5 digest of the UTF-8 bytes of `text`, in lower-case hexadecimal
/// digits.
pub uninterp spec fn md5_hex(text: Seq<char>) -> Seq<char>;

/// The name under which an archive holds the entry `s`: `md5::compute` of
/// the crate `md5` on the bytes of `s`, written through the digest's
/// `LowerHex`. The contract only names the result: it is a function of the
/// text alone.
#[verifier::external_body]
pub fn hashed_filename(s: &str) -> (name: String)
    ensures
        name@ == md5_hex(s@),
{
    format!("{:x}", md5::compute(s))
}

/// Whether a character is a hexadecimal digit of ASCII, of either case.
pub open spec fn is_hex_digit(c: char) -> bool {
    ('0' <= c <= '9') || ('a' <= c <= 'f') || ('A' <= c <= 'F')
}

/// The ending `.bin`.
pub open spec fn bin_ending() -> Seq<char> {
    seq!['.', 'b', 'i', 'n']
}

/// The ending `.bin3`.
pub open spec fn bin3_ending() -> Seq<char> {
    seq!['.', 'b', 'i', 'n', '3']
}

/// A name without its ending: the last four characters go where the name
/// ends in `.bin` or in `.bin3`. Of `.bin3` the point stays, so that such a
/// name is never that of an encrypted entry.
pub open spec fn stem_of(name: Seq<char>) -> Seq<char> {
    if ends_with(name, bin_ending()) || ends_with(name, bin3_ending()) {
        name.take(name.len() - 4)
    } else {
        name
    }
}

/// Every character of `text` is a hexadecimal digit.
pub open spec fn all_hex(text: Seq<char>) -> bool {
    forall|i: int| 0 <= i < text.len() ==> is_hex_digit(#[trigger] text[i])
}

/// A name is that of an encrypted entry: its stem is 32 hexadecimal digits.
pub open spec fn is_encrypted_name(name: Seq<char>) -> bool {
    stem_of(name).len() == 32 && all_hex(stem_of(name))
}

/// The index at which the word that begins at `from` ends: that of the next
/// white space, or the length of the text.
pub open spec fn word_end(text: Seq<char>, from: int) -> int
    decreases text.len() - from,
{
    if from >= text.len() || is_whitespace(text[from]) {
        from
    } else {
        word_end(text, from + 1)
    }
}

/// A word ends at or behind its start, within the text.
pub proof fn lemma_word_end(text: Seq<char>, from: int)
    requires
        0 <= from <= text.len(),
    ensures
        from <= word_end(text, from) <= text.len(),
        from < text.len() && !is_whitespace(text[from]) ==> from < word_end(text, from),
    decreases text.len() - from,
{
    if from < text.len() && !is_whitespace(text[from]) {
        lemma_word_end(text, from + 1);
    }
}

/// The first word at or behind `from` that is the name of an encrypted
/// entry. Words are what white space parts.
pub open spec fn encrypted_word_from(text: Seq<char>, from: int) -> Option<Seq<char>>
    decreases text.len() - from,
{
    if from < 0 || from >= text.len() {
        None
    } else if is_whitespace(text[from]) {
        encrypted_word_from(text, from + 1)
    } else {
        let end = word_end(text, from);
        let word = text.subrange(from, end);
        if is_encrypted_name(word) {
            Some(word)
        } else {
            proof {
                lemma_word_end(text, from);
            }
            encrypted_word_from(text, end)
        }
    }
}

/// The name of the encrypted entry that a command speaks of: what follows
/// `change_cos ` where the command begins so, else the whole command;
/// nothing where that is no such name.
pub open spec fn encrypted_file_of(command: Seq<char>) -> Option<Seq<char>> {
    let name = if starts_with(command, change_cos()) {
        command.skip(11)
    } else {
        command
    };
    if is_encrypted_name(name) {
        Some(name)
    } else {
        None
    }
}

/// The words `change_cos` and a blank, with which a command to change the
/// costume begins.
pub open spec fn change_cos() -> Seq<char> {
    seq!['c', 'h', 'a', 'n', 'g', 'e', '_', 'c', 'o', 's', ' ']
}

/// Whether a character is a hexadecimal digit.
fn hex_digit(c: char) -> (r: bool)
    ensures
        r == is_hex_digit(c),
{
    (c >= '0' && c <= '9') || (c >= 'a' && c <= 'f') || (c >= 'A' && c <= 'F')
}

/// Whether the characters from `from` up to `to` end in `ending`.
fn range_ends_with(chars: &Vec<char>, from: usize, to: usize, ending: &[char]) -> (r: bool)
    requires
        from <= to <= chars.len(),
    ensures
        r == ends_with(chars@.subrange(from as int, to as int), ending@),
{
    let len = ending.len();
    if to - from < len {
        return false;
    }
    let ghost text = chars@.subrange(from as int, to as int);
    let start = to - len;
    let mut i: usize = 0;
    while i < len
        invariant
            i <= len,
            len == ending.len(),
            start + len == to,
            from <= start,
            to <= chars.len(),
            text == chars@.subrange(from as int, to as int),
            forall|j: int| 0 <= j < i ==> chars[start + j] == ending[j],
        decreases len - i,
    {
        if chars[start + i] != ending[i] {
            assert(text.skip(text.len() - len)[i as int] != ending@[i as int]);
            return false;
        }
        i = i + 1;
    }
    assert(text.skip(text.len() - len) =~= ending@);
    true
}

/// Whether the characters from `from` up to `to` are the name of an
/// encrypted entry.
fn is_encrypted_range(chars: &Vec<char>, from: usize, to: usize) -> (r: bool)
    requires
        from <= to <= chars.len(),
    ensures
        r == is_encrypted_name(chars@.subrange(from as int, to as int)),
{
    let bin: [char; 4] = ['.', 'b', 'i', 'n'];
    let bin3: [char; 5] = ['.', 'b', 'i', 'n', '3'];
    let ghost name = chars@.subrange(from as int, to as int);
    assert(bin@ =~= bin_ending());
    assert(bin3@ =~= bin3_ending());
    let cut = range_ends_with(chars, from, to, bin.as_slice()) || range_ends_with(
        chars,
        from,
        to,
        bin3.as_slice(),
    );
    let end = if cut {
        to - 4
    } else {
        to
    };
    assert(stem_of(name) =~= chars@.subrange(from as int, end as int));
    if end - from != 32 {
        return false;
    }
    let mut i: usize = from;
    while i < end
        invariant
            from <= i <= end <= to <= chars.len(),
            stem_of(chars@.subrange(from as int, to as int)) == chars@.subrange(
                from as int,
                end as int,
            ),
            forall|j: int| from <= j < i ==> is_hex_digit(chars[j]),
        decreases end - i,
    {
        if !hex_digit(chars[i]) {
            assert(!is_hex_digit(chars@.subrange(from as int, end as int)[i - from]));
            return false;
        }
        i = i + 1;
    }
    assert forall|j: int| 0 <= j < end - from implies is_hex_digit(
        #[trigger] chars@.subrange(from as int, end as int)[j],
    ) by {
        assert(is_hex_digit(chars[from + j]));
    }
    true
}

/// Whether `s` is the name of an encrypted entry: 32 hexadecimal digits,
/// with or without the ending `.bin`.
pub fn is_encrypted_file(s: &str) -> (r: bool)
    ensures
        r == is_encrypted_name(s@),
{
    let chars = chars_of(s);
    assert(chars@.subrange(0, chars@.len() as int) =~= chars@);
    is_encrypted_range(&chars, 0, chars.len())
}

/// Finds the first word of `s` that is the name of an encrypted entry.
pub fn find_encrypted_file(s: &str) -> (r: Option<String>)
    ensures
        match r {
            Some(name) => encrypted_word_from(s@, 0) == Some(name@),
            None => encrypted_word_from(s@, 0) is None,
        },
{
    let chars = chars_of(s);
    let len = chars.len();
    let mut i: usize = 0;
    while i < len
        invariant
            i <= len,
            len == chars.len(),
            chars@ == s@,
            encrypted_word_from(s@, 0) == encrypted_word_from(s@, i as int),
        decreases len - i,
    {
        if char_is_whitespace(chars[i]) {
            i = i + 1;
        } else {
            let mut end: usize = i + 1;
            proof {
                lemma_word_end(s@, i as int);
            }
            while end < len && !char_is_whitespace(chars[end])
                invariant
                    i < end <= len,
                    len == chars.len(),
                    chars@ == s@,
                    word_end(s@, i as int) == word_end(s@, end as int),
                decreases len - end,
            {
                end = end + 1;
            }
            if is_encrypted_range(&chars, i, end) {
                return Some(slice_of(s, i, end));
            }
            i = end;
        }
    }
    None
}

/// Gets the name of the encrypted entry out of a command.
pub fn get_encrypted_file(s: &str) -> (r: Option<String>)
    ensures
        match r {
            Some(name) => encrypted_file_of(s@) == Some(name@),
            None => encrypted_file_of(s@) is None,
        },
{
    let chars = chars_of(s);
    let len = chars.len();
    let prefix: [char; 11] = ['c', 'h', 'a', 'n', 'g', 'e', '_', 'c', 'o', 's', ' '];
    assert(prefix@ =~= change_cos());
    let mut begins = len >= 11;
    let mut i: usize = 0;
    while begins && i < 11
        invariant
            i <= 11,
            len == chars.len(),
            begins ==> len >= 11,
            begins ==> forall|j: int| 0 <= j < i ==> chars[j] == prefix[j],
            !begins ==> !starts_with(chars@, prefix@),
        decreases 11 - i + if begins { 1int } else { 0int },
    {
        if chars[i] != prefix[i] {
            assert(chars@.take(11)[i as int] != prefix@[i as int]);
            begins = false;
        } else {
            i = i + 1;
        }
    }
    if begins {
        assert(chars@.take(11) =~= prefix@);
    }
    let from: usize = if begins {
        11
    } else {
        0
    };
    assert(chars@.subrange(from as int, len as int) =~= if begins {
        s@.skip(11)
    } else {
        s@
    });
    if is_encrypted_range(&chars, from, len) {
        Some(slice_of(s, from, len))
    } else {
        None
    }
}

} // verus!
