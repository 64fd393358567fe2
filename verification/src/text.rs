//! Text that the library reads and composes.

use vstd::prelude::*;
use vstd::string::*;
use vstd::utf8::*;

verus! {

/// Whether `prefix` opens `s`.
pub open spec fn starts_with(s: Seq<char>, prefix: Seq<char>) -> bool {
    prefix.len() <= s.len() && s.subrange(0, prefix.len() as int) == prefix
}

/// `s[from..to]` is one of the pieces that the separator cuts `s` into.
pub open spec fn is_piece(s: Seq<char>, separator: char, from: int, to: int) -> bool {
    &&& 0 <= from <= to <= s.len()
    &&& from == 0 || s[from - 1] == separator
    &&& to == s.len() || s[to] == separator
    &&& forall|k: int| from <= k < to ==> s[k] != separator
}

/// Whether one of the pieces that the separator cuts `s` into is `piece`.
pub open spec fn has_piece(s: Seq<char>, separator: char, piece: Seq<char>) -> bool {
    exists|from: int, to: int|
        #[trigger] is_piece(s, separator, from, to) && s.subrange(from, to) == piece
}

/// The character of a decimal digit.
pub open spec fn digit(n: nat) -> char {
    if n == 0 {
        '0'
    } else if n == 1 {
        '1'
    } else if n == 2 {
        '2'
    } else if n == 3 {
        '3'
    } else if n == 4 {
        '4'
    } else if n == 5 {
        '5'
    } else if n == 6 {
        '6'
    } else if n == 7 {
        '7'
    } else if n == 8 {
        '8'
    } else {
        '9'
    }
}

/// A number in decimal notation, without leading zeros.
pub open spec fn decimal(n: nat) -> Seq<char>
    decreases n,
{
    if n < 10 {
        seq![digit(n)]
    } else {
        decimal(n / 10).push(digit(n % 10))
    }
}

/// What the `{:?}` format writes for a string: the string in double quotes, escaped.
pub uninterp spec fn quoted(s: Seq<char>) -> Seq<char>;

/// The `{:?}` format of a string, by `<str as core::fmt::Debug>`. The text depends on the
/// string alone; which characters are escaped, and how, is not stated.
#[verifier::external_body]
pub(crate) fn quote(s: &str) -> (r: String)
    ensures
        r@ == quoted(s@),
{
    format!("{:?}", s)
}

/// The characters of a string.
pub fn chars_of(s: &str) -> (r: Vec<char>)
    ensures
        r@ == s@,
{
    let mut r: Vec<char> = Vec::new();
    for c in it: s.chars()
        invariant
            it.seq() == s@,
            r@ == s@.subrange(0, it.index() as int),
    {
        r.push(c);
    }
    r
}

/// Whether two strings hold the same characters.
pub fn text_eq(a: &str, b: &str) -> (r: bool)
    ensures
        r == (a@ == b@),
{
    let x = a.as_bytes();
    let y = b.as_bytes();
    proof {
        encode_utf8_decode_utf8(a@);
        encode_utf8_decode_utf8(b@);
    }
    if x.len() != y.len() {
        return false;
    }
    let mut i: usize = 0;
    while i < x.len()
        invariant
            i <= x@.len(),
            x@.len() == y@.len(),
            x@ == a.spec_bytes(),
            y@ == b.spec_bytes(),
            forall|k: int| 0 <= k < i ==> x@[k] == y@[k],
        decreases x@.len() - i,
    {
        if x[i] != y[i] {
            return false;
        }
        i = i + 1;
    }
    assert(x@ =~= y@);
    true
}

/// Two strings joined.
pub fn joined(a: &str, b: &str) -> (r: String)
    ensures
        r@ == a@ + b@,
{
    let mut r = a.to_owned();
    r.append(b);
    r
}

/// What follows the prefix, where the string starts with it.
pub fn after_prefix(s: &str, prefix: &str) -> (r: Option<String>)
    ensures
        r is Some <==> starts_with(s@, prefix@),
        r matches Some(rest) ==> rest@ == s@.subrange(prefix@.len() as int, s@.len() as int),
{
    let length: usize = s.unicode_len();
    let start: usize = prefix.unicode_len();
    if start <= length && text_eq(s.substring_char(0, start), prefix) {
        Some(s.substring_char(start, length).to_owned())
    } else {
        None
    }
}

/// Whether a string holds a character.
pub fn holds_char(s: &str, wanted: char) -> (r: bool)
    ensures
        r == s@.contains(wanted),
{
    let chars = chars_of(s);
    let mut i: usize = 0;
    while i < chars.len()
        invariant
            i <= chars@.len(),
            chars@ == s@,
            forall|k: int| 0 <= k < i ==> chars@[k] != wanted,
        decreases chars@.len() - i,
    {
        if chars[i] == wanted {
            assert(s@[i as int] == wanted);
            return true;
        }
        i = i + 1;
    }
    false
}

/// Whether `chars[from..to]` is `wanted`.
fn range_is(chars: &Vec<char>, from: usize, to: usize, wanted: &Vec<char>) -> (r: bool)
    requires
        from <= to <= chars@.len(),
    ensures
        r == (chars@.subrange(from as int, to as int) == wanted@),
{
    if to - from != wanted.len() {
        return false;
    }
    let mut i: usize = 0;
    while i < wanted.len()
        invariant
            from <= to <= chars@.len(),
            to - from == wanted@.len(),
            i <= wanted@.len(),
            forall|k: int| 0 <= k < i ==> chars@[from + k] == wanted@[k],
        decreases wanted@.len() - i,
    {
        if chars[from + i] != wanted[i] {
            assert(chars@.subrange(from as int, to as int)[i as int] != wanted@[i as int]);
            return false;
        }
        i = i + 1;
    }
    assert(chars@.subrange(from as int, to as int) =~= wanted@);
    true
}

/// Whether one of the pieces that the separator cuts `s` into is `piece`.
pub fn contains_piece(s: &str, separator: char, piece: &str) -> (r: bool)
    ensures
        r == has_piece(s@, separator, piece@),
{
    let chars = chars_of(s);
    let wanted = chars_of(piece);
    let mut from: usize = 0;
    let mut to: usize = 0;
    loop
        invariant
            chars@ == s@,
            wanted@ == piece@,
            from <= to <= chars@.len(),
            from == 0 || chars@[from - 1] == separator,
            forall|k: int| from <= k < to ==> chars@[k] != separator,
            forall|a: int, b: int|
                #[trigger] is_piece(s@, separator, a, b) && a < from ==> s@.subrange(a, b)
                    != piece@,
        decreases chars@.len() - to,
    {
        let at_end = to == chars.len();
        if at_end || chars[to] == separator {
            if range_is(&chars, from, to, &wanted) {
                assert(is_piece(s@, separator, from as int, to as int));
                return true;
            }
            assert forall|a: int, b: int|
                #[trigger] is_piece(s@, separator, a, b) && a < to + 1 implies s@.subrange(a, b)
                != piece@ by {
                if a == from {
                    // A piece ends at the first separator behind its start.
                    if b < to {
                        assert(chars@[b] == separator);
                    }
                    if b > to {
                        assert(chars@[to as int] != separator);
                    }
                } else if a > from {
                    assert(chars@[a - 1] == separator);
                }
            }
            if at_end {
                return false;
            }
            from = to + 1;
        }
        to = to + 1;
    }
}

/// A number in decimal notation.
pub fn decimal_text(n: u64) -> (r: String)
    ensures
        r@ == decimal(n as nat),
    decreases n,
{
    if n < 10 {
        let one = if n == 0 {
            proof {
                reveal_strlit("0");
            }
            "0"
        } else if n == 1 {
            proof {
                reveal_strlit("1");
            }
            "1"
        } else if n == 2 {
            proof {
                reveal_strlit("2");
            }
            "2"
        } else if n == 3 {
            proof {
                reveal_strlit("3");
            }
            "3"
        } else if n == 4 {
            proof {
                reveal_strlit("4");
            }
            "4"
        } else if n == 5 {
            proof {
                reveal_strlit("5");
            }
            "5"
        } else if n == 6 {
            proof {
                reveal_strlit("6");
            }
            "6"
        } else if n == 7 {
            proof {
                reveal_strlit("7");
            }
            "7"
        } else if n == 8 {
            proof {
                reveal_strlit("8");
            }
            "8"
        } else {
            proof {
                reveal_strlit("9");
            }
            "9"
        };
        let r = one.to_owned();
        assert(r@ =~= seq![digit(n as nat)]);
        r
    } else {
        let mut r = decimal_text(n / 10);
        let last = decimal_text(n % 10);
        r.append(last.as_str());
        assert(r@ =~= decimal((n / 10) as nat).push(digit((n % 10) as nat)));
        r
    }
}

/// A text starts with a prefix exactly if it is the prefix with something behind it.
pub proof fn law_prefixes(s: Seq<char>, prefix: Seq<char>, rest: Seq<char>)
    ensures
        starts_with(prefix + rest, prefix),
        starts_with(s, prefix) ==> s == prefix + s.subrange(prefix.len() as int, s.len() as int),
{
    assert((prefix + rest).subrange(0, prefix.len() as int) =~= prefix);
    if starts_with(s, prefix) {
        assert(s =~= prefix + s.subrange(prefix.len() as int, s.len() as int));
    }
}

/// `piece` stands in `s` between `before` and `after`, and separators cut it off on both sides.
pub open spec fn stands_between(
    s: Seq<char>,
    separator: char,
    before: Seq<char>,
    piece: Seq<char>,
    after: Seq<char>,
) -> bool {
    &&& s == before + piece + after
    &&& before.len() > 0 ==> before.last() == separator
    &&& after.len() > 0 ==> after[0] == separator
}

/// A list has an item exactly if the item stands in it with a separator, or nothing, on each side.
pub proof fn law_pieces_stand_between_separators(s: Seq<char>, separator: char, piece: Seq<char>)
    requires
        !piece.contains(separator),
    ensures
        has_piece(s, separator, piece) <==> exists|before: Seq<char>, after: Seq<char>|
            #[trigger] stands_between(s, separator, before, piece, after),
{
    if has_piece(s, separator, piece) {
        let (from, to) = choose|from: int, to: int|
            #[trigger] is_piece(s, separator, from, to) && s.subrange(from, to) == piece;
        let before = s.subrange(0, from);
        let after = s.subrange(to, s.len() as int);
        assert(s =~= before + s.subrange(from, to) + after);
        assert(stands_between(s, separator, before, piece, after));
    }
    if exists|before: Seq<char>, after: Seq<char>|
        #[trigger] stands_between(s, separator, before, piece, after) {
        let (before, after) = choose|before: Seq<char>, after: Seq<char>|
            #[trigger] stands_between(s, separator, before, piece, after);
        let from = before.len() as int;
        let to = from + piece.len();
        assert(s.subrange(from, to) =~= piece);
        assert forall|k: int| from <= k < to implies s[k] != separator by {
            assert(s[k] == piece[k - from]);
        }
        assert(from > 0 ==> s[from - 1] == before.last());
        assert(to < s.len() ==> s[to] == after[0]);
        assert(is_piece(s, separator, from, to));
    }
}

/// The number that decimal digits write; nothing where one of them is no digit.
pub open spec fn number_of(digits: Seq<char>) -> Option<nat>
    decreases digits.len(),
{
    if digits.len() == 0 {
        Some(0)
    } else {
        let last = digits.last();
        match number_of(digits.drop_last()) {
            Some(n) if '0' <= last && last <= '9' => Some(
                10 * n + (last as nat - '0' as nat) as nat,
            ),
            _ => None,
        }
    }
}

/// The decimal notation of a number writes that number, with no digit too many.
pub proof fn law_decimal_writes_the_number(n: nat)
    ensures
        number_of(decimal(n)) == Some(n),
        decimal(n).len() >= 1,
        decimal(n).len() > 1 ==> decimal(n)[0] != '0',
    decreases n,
{
    reveal_with_fuel(number_of, 2);
    if n < 10 {
        assert(decimal(n).drop_last() =~= seq![]);
    } else {
        law_decimal_writes_the_number(n / 10);
        assert(decimal(n).drop_last() =~= decimal(n / 10));
        assert(decimal(n)[0] == decimal(n / 10)[0]);
        if n / 10 < 10 {
            assert(decimal(n / 10)[0] == digit(n / 10));
        }
    }
}

/// Texts that begin alike and go on with a number each are told apart by the number, which the
/// text holds to its end.
pub proof fn law_numbers_tell_texts_apart(start: Seq<char>, a: nat, b: nat)
    ensures
        start + decimal(a) == start + decimal(b) ==> a == b,
        number_of((start + decimal(a)).skip(start.len() as int)) == Some(a),
{
    law_decimal_writes_the_number(a);
    law_decimal_writes_the_number(b);
    assert((start + decimal(a)).skip(start.len() as int) =~= decimal(a));
    assert((start + decimal(b)).skip(start.len() as int) =~= decimal(b));
}

} // verus!
