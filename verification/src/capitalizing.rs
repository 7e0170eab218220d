//! Conversions between Rust struct names and database table names.
use vstd::prelude::*;

use crate::text::{
    ascii_lower, ascii_upper, char_to_uppercase, chars_of, is_uppercase, push_char,
    to_ascii_lowercase, to_ascii_uppercase, unicode_char_to_uppercase, unicode_is_uppercase,
};

verus! {

/// What the character at position `i` of a struct name becomes in the table
/// name: its ASCII lower-case form, preceded by `_` when it is upper case and
/// its position counted from the end differs from the name's byte length
/// minus one (for an ASCII name: when it is not the first character).
pub open spec fn snake_piece(s: Seq<char>, byte_len: int, i: int) -> Seq<char> {
    if unicode_is_uppercase(s[i]) && s.len() - 1 - i != byte_len - 1 {
        seq!['_', ascii_lower(s[i])]
    } else {
        seq![ascii_lower(s[i])]
    }
}

/// The table name made from the first `k` characters of a struct name.
pub open spec fn snake_prefix(s: Seq<char>, byte_len: int, k: int) -> Seq<char>
    decreases k,
{
    if k <= 0 {
        Seq::empty()
    } else {
        snake_prefix(s, byte_len, k - 1) + snake_piece(s, byte_len, k - 1)
    }
}

/// The snake-cased table name of a camel-cased struct name whose UTF-8
/// encoding is `byte_len` bytes long.
pub open spec fn camel_to_snake(s: Seq<char>, byte_len: int) -> Seq<char> {
    snake_prefix(s, byte_len, s.len() as int)
}

/// The table name of a struct: the struct name itself, or its snake-cased
/// form when struct names are camel case and table names snake case.
pub open spec fn db_table_name(struct_name: &str, camel_case_to_snake_case: bool) -> Seq<char> {
    if camel_case_to_snake_case {
        camel_to_snake(struct_name@, struct_name.len() as int)
    } else {
        struct_name@
    }
}

/// Whether a character is an ASCII upper-case letter.
pub open spec fn ascii_is_upper(c: char) -> bool {
    'A' <= c && c <= 'Z'
}

/// Whether every character of `s` is ASCII.
pub open spec fn ascii_text(s: Seq<char>) -> bool {
    vstd::utf8::is_ascii_chars(s)
}

/// What the character at position `i` of an ASCII struct name becomes in
/// the table name: its lower-case form, preceded by `_` when it is an
/// upper-case letter other than the first character.
pub open spec fn ascii_snake_piece(s: Seq<char>, i: int) -> Seq<char> {
    if ascii_is_upper(s[i]) && i != 0 {
        seq!['_', ascii_lower(s[i])]
    } else {
        seq![ascii_lower(s[i])]
    }
}

/// The table name made from the characters of an ASCII struct name from
/// position `i` on.
pub open spec fn ascii_snake_from(s: Seq<char>, i: int) -> Seq<char>
    decreases s.len() - i,
{
    if i < 0 || i >= s.len() {
        Seq::empty()
    } else {
        ascii_snake_piece(s, i) + ascii_snake_from(s, i + 1)
    }
}

/// The snake-cased table name of an ASCII camel-cased struct name.
pub open spec fn ascii_camel_to_snake(s: Seq<char>) -> Seq<char> {
    ascii_snake_from(s, 0)
}

/// For an ASCII name whose upper-case letters are those that
/// `unicode_is_uppercase` holds of, the table name built from the back
/// equals the one built from the front.
proof fn lemma_snake_prefix_ascii(s: Seq<char>, k: int)
    requires
        0 <= k <= s.len(),
        forall|j: int| 0 <= j < s.len() ==> unicode_is_uppercase(#[trigger] s[j]) == ascii_is_upper(
            s[j],
        ),
    ensures
        snake_prefix(s, s.len() as int, k) + ascii_snake_from(s, k) == ascii_snake_from(s, 0),
    decreases k,
{
    if k == 0 {
        assert(snake_prefix(s, s.len() as int, 0) + ascii_snake_from(s, 0) =~= ascii_snake_from(
            s,
            0,
        ));
    } else {
        lemma_snake_prefix_ascii(s, k - 1);
        assert(snake_piece(s, s.len() as int, k - 1) == ascii_snake_piece(s, k - 1));
        assert(ascii_snake_from(s, k - 1) == ascii_snake_piece(s, k - 1) + ascii_snake_from(s, k));
        assert(snake_prefix(s, s.len() as int, k) + ascii_snake_from(s, k) =~= snake_prefix(
            s,
            s.len() as int,
            k - 1,
        ) + ascii_snake_from(s, k - 1));
    }
}

/// Maps a struct name to its table name; `camel_case_to_snake_case` is the
/// setting that says whether table names are snake cased.
pub fn struct_name_to_db_table_name(struct_name: &str, camel_case_to_snake_case: bool) -> (r:
    String)
    ensures
        r@ == db_table_name(struct_name, camel_case_to_snake_case),
        camel_case_to_snake_case && ascii_text(struct_name@) ==> r@ == ascii_camel_to_snake(
            struct_name@,
        ),
{
    if camel_case_to_snake_case {
        let chars = chars_of(struct_name);
        let byte_len = struct_name.len();
        let mut db_table_name = String::new();
        let mut i: usize = 0;
        while i < chars.len()
            invariant
                i <= chars.len(),
                chars@ == struct_name@,
                byte_len == struct_name.len(),
                db_table_name@ == snake_prefix(chars@, byte_len as int, i as int),
                ascii_text(chars@) ==> forall|j: int|
                    0 <= j < i ==> unicode_is_uppercase(#[trigger] chars@[j]) == ascii_is_upper(
                        chars@[j],
                    ),
            decreases chars.len() - i,
        {
            let c = chars[i];
            let lower = to_ascii_lowercase(c);
            // Position of `c` counted from the end of the name.
            let from_end = chars.len() - 1 - i;
            let upper = is_uppercase(c);
            if upper && from_end + 1 != byte_len {
                push_char(&mut db_table_name, '_');
            }
            push_char(&mut db_table_name, lower);
            proof {
                if ascii_text(chars@) {
                    assert(chars@[i as int] <= '\u{7f}');
                }
            }
            i = i + 1;
        }
        proof {
            if ascii_text(chars@) {
                assert(vstd::utf8::is_ascii_chars(struct_name@));
                vstd::string::is_ascii_spec_bytes(struct_name);
                assert(struct_name.len() == chars@.len());
                lemma_snake_prefix_ascii(chars@, chars@.len() as int);
                assert(ascii_snake_from(chars@, chars@.len() as int) =~= Seq::<char>::empty());
                assert(db_table_name@ + Seq::<char>::empty() =~= db_table_name@);
            }
        }
        db_table_name
    } else {
        struct_name.to_owned()
    }
}

/// `s` with every `symbol` removed and the character after it made ASCII
/// upper case; `None` when a `symbol` is the last character, since then no
/// character follows it.
pub open spec fn capitalize_after(s: Seq<char>, symbol: char) -> Option<Seq<char>>
    decreases s.len(),
{
    if s.len() == 0 {
        Some(Seq::empty())
    } else if s[0] == symbol {
        if s.len() < 2 {
            None
        } else {
            match capitalize_after(s.skip(2), symbol) {
                Some(rest) => Some(seq![ascii_upper(s[1])] + rest),
                None => None,
            }
        }
    } else {
        match capitalize_after(s.skip(1), symbol) {
            Some(rest) => Some(seq![s[0]] + rest),
            None => None,
        }
    }
}

/// `s` with its first character replaced by that character's Unicode
/// upper-case form.
pub open spec fn capitalized_spec(s: Seq<char>) -> Seq<char>
    recommends
        s.len() > 0,
{
    unicode_char_to_uppercase(s[0]) + s.skip(1)
}

/// `s` with its first character in upper case.
pub fn capitalized(s: &str) -> (r: String)
    requires
        s@.len() > 0,
    ensures
        r@ == capitalized_spec(s@),
        s@[0] <= '\u{7f}' ==> r@ == seq![ascii_upper(s@[0])] + s@.skip(1),
{
    let chars = chars_of(s);
    let mut r = char_to_uppercase(chars[0]);
    let rest = s.substring_char(1, chars.len());
    r.append(rest);
    r
}

/// `s` with every `symbol` removed and the letter after it made upper case,
/// or `None` when a `symbol` has no character after it.
pub fn try_capitalize_letter_after_symbol(s: &str, symbol: char) -> (r: Option<String>)
    ensures
        match r {
            Some(t) => capitalize_after(s@, symbol) == Some(t@),
            None => capitalize_after(s@, symbol) is None,
        },
{
    let chars = chars_of(s);
    let mut new_string = String::new();
    let mut i: usize = 0;
    proof {
        assert(chars@.skip(0) =~= chars@);
        let all = capitalize_after(s@, symbol);
        if all is Some {
            assert(new_string@ + all.unwrap() =~= all.unwrap());
        }
    }
    while i < chars.len()
        invariant
            i <= chars.len(),
            chars@ == s@,
            capitalize_after(s@, symbol) == match capitalize_after(chars@.skip(i as int), symbol) {
                Some(rest) => Some(new_string@ + rest),
                None => None,
            },
        decreases chars.len() - i,
    {
        let ghost tail = chars@.skip(i as int);
        let c = chars[i];
        if c == symbol {
            if i + 1 == chars.len() {
                return None;
            }
            let next = chars[i + 1];
            assert(tail.skip(2) =~= chars@.skip(i + 2));
            proof {
                let rest = capitalize_after(tail.skip(2), symbol);
                if rest is Some {
                    assert(new_string@.push(ascii_upper(next)) + rest.unwrap() =~= new_string@ + (
                    seq![ascii_upper(next)] + rest.unwrap()));
                }
            }
            push_char(&mut new_string, to_ascii_uppercase(next));
            i = i + 2;
        } else {
            assert(tail.skip(1) =~= chars@.skip(i + 1));
            proof {
                let rest = capitalize_after(tail.skip(1), symbol);
                if rest is Some {
                    assert(new_string@.push(c) + rest.unwrap() =~= new_string@ + (seq![c]
                        + rest.unwrap()));
                }
            }
            push_char(&mut new_string, c);
            i = i + 1;
        }
    }
    assert(new_string@ + Seq::<char>::empty() =~= new_string@);
    Some(new_string)
}

/// `s` with every `symbol` removed and the letter after it made upper case.
pub fn capitalize_letter_after_symbol(s: &str, symbol: char) -> (r: String)
    requires
        capitalize_after(s@, symbol) is Some,
    ensures
        Some(r@) == capitalize_after(s@, symbol),
{
    match try_capitalize_letter_after_symbol(s, symbol) {
        Some(t) => t,
        None => String::new(),
    }
}

/// The upper camel case form of a snake-cased name.
pub open spec fn upper_camel_case(s: Seq<char>) -> Option<Seq<char>> {
    if s.len() == 0 {
        None
    } else {
        capitalize_after(capitalized_spec(s), '_')
    }
}

/// The upper camel case form of a snake-cased name whose first character
/// is ASCII: the same as [`upper_camel_case`], with the first character's
/// upper-case form written out.
pub open spec fn ascii_upper_camel_case(s: Seq<char>) -> Option<Seq<char>> {
    if s.len() == 0 {
        None
    } else {
        capitalize_after(seq![ascii_upper(s[0])] + s.skip(1), '_')
    }
}

/// Whether a character is an ASCII letter or digit.
pub open spec fn ascii_alphanumeric(c: char) -> bool {
    ('a' <= c && c <= 'z') || ('A' <= c && c <= 'Z') || ('0' <= c && c <= '9')
}

proof fn lemma_capitalize_snake_from(s: Seq<char>, i: int)
    requires
        1 <= i <= s.len(),
        forall|j: int| 0 <= j < s.len() ==> ascii_alphanumeric(#[trigger] s[j]),
    ensures
        capitalize_after(ascii_snake_from(s, i), '_') == Some(s.skip(i)),
    decreases s.len() - i,
{
    if i == s.len() {
        assert(s.skip(i) =~= Seq::<char>::empty());
    } else {
        lemma_capitalize_snake_from(s, i + 1);
        let c = s[i];
        assert(ascii_alphanumeric(c));
        let x = ascii_snake_from(s, i);
        let rest = ascii_snake_from(s, i + 1);
        assert(s.skip(i) =~= seq![c] + s.skip(i + 1));
        if ascii_is_upper(c) {
            assert(x == seq!['_', ascii_lower(c)] + rest);
            assert(x.skip(2) =~= rest);
            assert(ascii_upper(ascii_lower(c)) == c);
        } else {
            assert(ascii_lower(c) == c);
            assert(x == seq![c] + rest);
            assert(x.skip(1) =~= rest);
        }
    }
}

/// Where table names are snake case, a struct name of ASCII letters and
/// digits that starts with an upper-case letter gives a table name (an
/// ASCII name that starts with an ASCII character) whose struct name is the
/// struct name again: `SomeStructName` gives `some_struct_name`, which
/// gives `SomeStructName`. On such names the contracts of
/// [`struct_name_to_db_table_name`] and [`table_name_to_struct_name`] are
/// `ascii_camel_to_snake` and `ascii_upper_camel_case`.
pub proof fn lemma_struct_name_round_trip(s: Seq<char>)
    requires
        s.len() > 0,
        forall|j: int| 0 <= j < s.len() ==> ascii_alphanumeric(#[trigger] s[j]),
        ascii_is_upper(s[0]),
    ensures
        ascii_text(s),
        ascii_camel_to_snake(s).len() > 0,
        ascii_camel_to_snake(s)[0] <= '\u{7f}',
        ascii_upper_camel_case(ascii_camel_to_snake(s)) == Some(s),
{
    assert forall|j: int| 0 <= j < s.len() implies '\0' <= #[trigger] s[j] <= '\u{7f}' by {
        assert(ascii_alphanumeric(s[j]));
    }
    let t = ascii_camel_to_snake(s);
    let s0 = s[0];
    assert(t == seq![ascii_lower(s0)] + ascii_snake_from(s, 1));
    assert(ascii_upper(ascii_lower(s0)) == s0);
    lemma_capitalize_snake_from(s, 1);
    let arg = seq![ascii_upper(t[0])] + t.skip(1);
    assert(t.skip(1) =~= ascii_snake_from(s, 1));
    assert(arg =~= seq![s0] + ascii_snake_from(s, 1));
    assert(arg.skip(1) =~= ascii_snake_from(s, 1));
    assert(s =~= seq![s0] + s.skip(1));
}

/// Turns a snake-cased name into upper camel case: `some_table` becomes
/// `SomeTable`.
pub fn snake_case_to_upper_camel_case(s: &str) -> (r: String)
    requires
        upper_camel_case(s@) is Some,
    ensures
        Some(r@) == upper_camel_case(s@),
        s@[0] <= '\u{7f}' ==> Some(r@) == ascii_upper_camel_case(s@),
{
    let c = capitalized(s);
    capitalize_letter_after_symbol(c.as_str(), '_')
}

/// The upper camel case form of a snake-cased name, or `None` for an empty
/// name or one whose last character is `_`.
pub fn try_snake_case_to_upper_camel_case(s: &str) -> (r: Option<String>)
    ensures
        match r {
            Some(t) => upper_camel_case(s@) == Some(t@),
            None => upper_camel_case(s@) is None,
        },
        s@.len() > 0 && s@[0] <= '\u{7f}' ==> match r {
            Some(t) => ascii_upper_camel_case(s@) == Some(t@),
            None => ascii_upper_camel_case(s@) is None,
        },
{
    if s.is_empty() {
        return None;
    }
    let c = capitalized(s);
    match try_capitalize_letter_after_symbol(c.as_str(), '_') {
        Some(_) => Some(snake_case_to_upper_camel_case(s)),
        None => None,
    }
}

/// The struct name of a table: the table name itself, or its upper camel
/// case form when table names are snake case.
pub open spec fn struct_name_of_table(table_name: Seq<char>, camel_case_to_snake_case: bool) -> Option<
    Seq<char>,
> {
    if camel_case_to_snake_case {
        upper_camel_case(table_name)
    } else {
        Some(table_name)
    }
}

/// Maps a table name to the name of its struct.
pub fn table_name_to_struct_name(s: &str, camel_case_to_snake_case: bool) -> (r: String)
    requires
        struct_name_of_table(s@, camel_case_to_snake_case) is Some,
    ensures
        Some(r@) == struct_name_of_table(s@, camel_case_to_snake_case),
        camel_case_to_snake_case && s@[0] <= '\u{7f}' ==> Some(r@) == ascii_upper_camel_case(s@),
{
    if camel_case_to_snake_case {
        snake_case_to_upper_camel_case(s)
    } else {
        s.to_owned()
    }
}

/// The struct name of a table, or `None` where the table name has none.
pub fn try_table_name_to_struct_name(s: &str, camel_case_to_snake_case: bool) -> (r: Option<
    String,
>)
    ensures
        match r {
            Some(t) => struct_name_of_table(s@, camel_case_to_snake_case) == Some(t@),
            None => struct_name_of_table(s@, camel_case_to_snake_case) is None,
        },
        camel_case_to_snake_case && s@.len() > 0 && s@[0] <= '\u{7f}' ==> match r {
            Some(t) => ascii_upper_camel_case(s@) == Some(t@),
            None => ascii_upper_camel_case(s@) is None,
        },
{
    if camel_case_to_snake_case {
        match try_snake_case_to_upper_camel_case(s) {
            Some(_) => Some(table_name_to_struct_name(s, camel_case_to_snake_case)),
            None => None,
        }
    } else {
        Some(table_name_to_struct_name(s, camel_case_to_snake_case))
    }
}

} // verus!
