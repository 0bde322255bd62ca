//! Names and numbers as text: decimal numerals and the names of packaged
//! items.

use vstd::prelude::*;

verus! {

/// The character that stands for a digit below ten.
pub open spec fn digit_char(d: nat) -> char {
    if d == 0 {
        '0'
    } else if d == 1 {
        '1'
    } else if d == 2 {
        '2'
    } else if d == 3 {
        '3'
    } else if d == 4 {
        '4'
    } else if d == 5 {
        '5'
    } else if d == 6 {
        '6'
    } else if d == 7 {
        '7'
    } else if d == 8 {
        '8'
    } else {
        '9'
    }
}

/// The decimal numeral of a number, without sign or leading zeros.
pub open spec fn decimal(n: nat) -> Seq<char>
    decreases n,
{
    if n < 10 {
        seq![digit_char(n)]
    } else {
        decimal(n / 10).push(digit_char(n % 10))
    }
}

/// Appends one decimal digit.
fn push_digit(text: &mut String, d: usize)
    requires
        d < 10,
    ensures
        final(text)@ == old(text)@.push(digit_char(d as nat)),
{
    proof {
        reveal_strlit("0");
        reveal_strlit("1");
        reveal_strlit("2");
        reveal_strlit("3");
        reveal_strlit("4");
        reveal_strlit("5");
        reveal_strlit("6");
        reveal_strlit("7");
        reveal_strlit("8");
        reveal_strlit("9");
    }
    let digit = if d == 0 {
        "0"
    } else if d == 1 {
        "1"
    } else if d == 2 {
        "2"
    } else if d == 3 {
        "3"
    } else if d == 4 {
        "4"
    } else if d == 5 {
        "5"
    } else if d == 6 {
        "6"
    } else if d == 7 {
        "7"
    } else if d == 8 {
        "8"
    } else {
        "9"
    };
    assert(digit@ =~= seq![digit_char(d as nat)]);
    text.append(digit);
    assert(text@ =~= old(text)@.push(digit_char(d as nat)));
}

/// The decimal numeral of a number.
pub fn decimal_string(n: usize) -> (text: String)
    ensures
        text@ == decimal(n as nat),
    decreases n,
{
    let mut text = if n < 10 {
        String::new()
    } else {
        decimal_string(n / 10)
    };
    push_digit(&mut text, n % 10);
    assert(n < 10 ==> text@ =~= seq![digit_char(n as nat)]);
    text
}

/// The ending that marks the file of a packaged item.
pub open spec fn pak_suffix() -> Seq<char> {
    seq!['.', 'p', 'a', 'k']
}

/// The file name under which a packaged item is installed.
pub open spec fn packaged_name(id: Seq<char>) -> Seq<char> {
    id + pak_suffix()
}

/// Whether a file name is that of a packaged item: it ends in the package
/// extension, preceded by at least one character.
pub open spec fn is_packaged_name(name: Seq<char>) -> bool {
    name.len() > 4 && name.subrange(name.len() - 4, name.len() as int) == pak_suffix()
}

/// A packaged item's file name without its extension.
pub open spec fn package_stem(name: Seq<char>) -> Seq<char> {
    name.subrange(0, name.len() - 4)
}

/// Every identifier but the empty one is the stem of its packaged name.
pub proof fn lemma_packaged_name_round_trip(id: Seq<char>)
    requires
        id.len() > 0,
    ensures
        is_packaged_name(packaged_name(id)),
        package_stem(packaged_name(id)) == id,
{
    let name = packaged_name(id);
    assert(name.subrange(name.len() - 4, name.len() as int) =~= pak_suffix());
    assert(name.subrange(0, name.len() - 4) =~= id);
}

/// Whether a file name is that of a packaged item.
pub fn has_package_extension(name: &str) -> (packaged: bool)
    ensures
        packaged == is_packaged_name(name@),
{
    let len = name.unicode_len();
    if len <= 4 {
        return false;
    }
    let matches = name.get_char(len - 4) == '.' && name.get_char(len - 3) == 'p' && name.get_char(
        len - 2,
    ) == 'a' && name.get_char(len - 1) == 'k';
    proof {
        let tail = name@.subrange(len - 4, len as int);
        assert(tail.len() == 4);
        assert(tail[0] == name@[len - 4]);
        assert(tail[1] == name@[len - 3]);
        assert(tail[2] == name@[len - 2]);
        assert(tail[3] == name@[len - 1]);
        if matches {
            assert(tail =~= pak_suffix());
        } else {
            assert(pak_suffix()[0] == '.');
            assert(pak_suffix()[1] == 'p');
            assert(pak_suffix()[2] == 'a');
            assert(pak_suffix()[3] == 'k');
        }
    }
    matches
}

/// The identifier that a file name stands for: the name without the package
/// extension, or nothing where the name is not that of a packaged item.
pub open spec fn packaged_id(name: Seq<char>) -> Option<Seq<char>> {
    if is_packaged_name(name) {
        Some(package_stem(name))
    } else {
        None
    }
}

/// The identifier of the packaged item that a file name stands for, if it
/// stands for one.
pub fn packaged_item_id(name: &str) -> (id: Option<String>)
    ensures
        id.deep_view() == packaged_id(name@),
{
    if has_package_extension(name) {
        let len = name.unicode_len();
        Some(String::from_str(name.substring_char(0, len - 4)))
    } else {
        None
    }
}

/// The file name under which the packaged item with this identifier is
/// installed.
pub fn packaged_file_name(id: &str) -> (name: String)
    ensures
        name@ == packaged_name(id@),
{
    proof {
        reveal_strlit(".pak");
    }
    let name = String::from_str(id).concat(".pak");
    assert(".pak"@ =~= pak_suffix());
    name
}

/// Whether a character is replaced by an underscore in the name of a
/// folder: a space always, and with `separators` also a hyphen, a slash and
/// a backslash.
pub open spec fn is_underscored(c: char, separators: bool) -> bool {
    c == ' ' || (separators && (c == '-' || c == '\\' || c == '/'))
}

/// The text with an underscore in place of every character that is
/// replaced in the name of a folder.
pub open spec fn underscored(text: Seq<char>, separators: bool) -> Seq<char> {
    text.map_values(
        |c: char|
            if is_underscored(c, separators) {
                '_'
            } else {
                c
            },
    )
}

/// The text with underscores for spaces and, with `separators`, for
/// hyphens, slashes and backslashes.
pub fn underscore(text: &str, separators: bool) -> (folder: String)
    ensures
        folder@ == underscored(text@, separators),
{
    let len = text.unicode_len();
    let mut folder = String::new();
    let mut i: usize = 0;
    proof {
        reveal_strlit("_");
    }
    assert(folder@ =~= underscored(text@.take(0), separators));
    while i < len
        invariant
            i <= len,
            len == text@.len(),
            "_"@ == seq!['_'],
            folder@ == underscored(text@.take(i as int), separators),
        decreases len - i,
    {
        let c = text.get_char(i);
        if c == ' ' || (separators && (c == '-' || c == '\\' || c == '/')) {
            folder.append("_");
        } else {
            folder.append(text.substring_char(i, i + 1));
        }
        proof {
            let next = text@.take(i + 1);
            assert(next =~= text@.take(i as int).push(c));
            assert(text@.subrange(i as int, i + 1) =~= seq![c]);
            assert(folder@ =~= underscored(next, separators));
        }
        i += 1;
    }
    assert(text@.take(i as int) == text@);
    folder
}

/// The text without the white space at its ends, as `str::trim` gives it.
/// What counts as white space is Unicode's matter and not written out here.
pub uninterp spec fn trimmed(text: Seq<char>) -> Seq<char>;

/// Whether a character is a letter or a number, as `char::is_alphanumeric`
/// tells it. Which characters these are is Unicode's matter and not written
/// out here.
pub uninterp spec fn is_alphanumeric(c: char) -> bool;

/// Calls `str::trim`. The contract gives its result the name `trimmed`
/// and claims nothing else about it.
#[verifier::external_body]
pub(crate) fn trim_text(text: &str) -> (inner: &str)
    ensures
        inner@ == trimmed(text@),
{
    text.trim()
}

/// Calls `char::is_alphanumeric`. The contract gives its result the name
/// `is_alphanumeric` and claims nothing else about it.
#[verifier::external_body]
pub(crate) fn char_is_alphanumeric(c: char) -> (alphanumeric: bool)
    ensures
        alphanumeric == is_alphanumeric(c),
{
    c.is_alphanumeric()
}

} // verus!
