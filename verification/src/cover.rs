//! Where the cover of a book is kept.
//!
//! A cover is filed under its book's title and under nothing else. The title
//! comes from a page that anyone may have written, so it is not used as it
//! stands: a character that a file name should not hold is written out as an
//! underscore and the six hexadecimal digits of its number. Two titles have
//! the same key only if they are the same title.

use vstd::prelude::*;
use vstd::string::*;

verus! {

/// The characters that a file name may hold: ASCII letters and digits, the
/// space, the hyphen and the underscore.
pub open spec fn is_plain(c: char) -> bool {
    ||| 'a' <= c <= 'z'
    ||| 'A' <= c <= 'Z'
    ||| '0' <= c <= '9'
    ||| c == ' '
    ||| c == '-'
    ||| c == '_'
}

/// The characters that stand for themselves in a key: the plain ones but
/// the underscore, which marks what is written out.
pub open spec fn is_kept(c: char) -> bool {
    is_plain(c) && c != '_'
}

/// The hexadecimal digit of a number below sixteen.
pub open spec fn hex_digit(d: int) -> char {
    if d == 0 {
        '0'
    } else if d == 1 {
        '1'
    } else if d == 2 {
        '2'
    } else if d == 3 {
        '3'
    } else if d == 4 {
        '4'
    } else if d == 5 {
        '5'
    } else if d == 6 {
        '6'
    } else if d == 7 {
        '7'
    } else if d == 8 {
        '8'
    } else if d == 9 {
        '9'
    } else if d == 10 {
        'a'
    } else if d == 11 {
        'b'
    } else if d == 12 {
        'c'
    } else if d == 13 {
        'd'
    } else if d == 14 {
        'e'
    } else {
        'f'
    }
}

/// A character written out: an underscore, then the six hexadecimal digits
/// of its number, the highest first.
pub open spec fn written_out(c: char) -> Seq<char> {
    let n = c as u32 as int;
    seq![
        '_',
        hex_digit(n / 0x100000 % 16),
        hex_digit(n / 0x10000 % 16),
        hex_digit(n / 0x1000 % 16),
        hex_digit(n / 0x100 % 16),
        hex_digit(n / 0x10 % 16),
        hex_digit(n % 16),
    ]
}

/// A character as it stands in a key.
pub open spec fn cleaned(c: char) -> Seq<char> {
    if is_kept(c) {
        seq![c]
    } else {
        written_out(c)
    }
}

/// The key of a title: its characters, in order, each as it stands in a key.
pub open spec fn key_text(title: Seq<char>) -> Seq<char>
    decreases title.len(),
{
    if title.len() == 0 {
        Seq::empty()
    } else {
        cleaned(title.first()) + key_text(title.drop_first())
    }
}

/// The path of the cover of a title: in the directory of covers, the key
/// of the title, with the ending of an image.
pub open spec fn path_text(title: Seq<char>) -> Seq<char> {
    "covers"@ + "/"@ + key_text(title) + ".jpg"@
}

/// `String::push` of std: the character is added at the end.
#[verifier::external_body]
fn push_char(text: &mut String, c: char)
    ensures
        final(text)@ == old(text)@.push(c),
{
    text.push(c)
}

/// Whether a file name may hold the character.
pub fn plain(c: char) -> (r: bool)
    ensures
        r == is_plain(c),
{
    ('a' <= c && c <= 'z') || ('A' <= c && c <= 'Z') || ('0' <= c && c <= '9') || c == ' '
        || c == '-' || c == '_'
}

/// The hexadecimal digit of the last four bits of `d`.
fn hex(d: u32) -> (r: char)
    ensures
        r == hex_digit(d as int % 16),
{
    let low: u32 = d % 16;
    if low == 0 {
        '0'
    } else if low == 1 {
        '1'
    } else if low == 2 {
        '2'
    } else if low == 3 {
        '3'
    } else if low == 4 {
        '4'
    } else if low == 5 {
        '5'
    } else if low == 6 {
        '6'
    } else if low == 7 {
        '7'
    } else if low == 8 {
        '8'
    } else if low == 9 {
        '9'
    } else if low == 10 {
        'a'
    } else if low == 11 {
        'b'
    } else if low == 12 {
        'c'
    } else if low == 13 {
        'd'
    } else if low == 14 {
        'e'
    } else {
        'f'
    }
}

/// Adds a character to a key, as it stands there.
fn push_cleaned(key: &mut String, c: char)
    ensures
        final(key)@ == old(key)@ + cleaned(c),
{
    if plain(c) && c != '_' {
        push_char(key, c);
        assert(key@ =~= old(key)@ + cleaned(c));
    } else {
        let n: u32 = c as u32;
        push_char(key, '_');
        push_char(key, hex(n / 0x100000));
        push_char(key, hex(n / 0x10000));
        push_char(key, hex(n / 0x1000));
        push_char(key, hex(n / 0x100));
        push_char(key, hex(n / 0x10));
        push_char(key, hex(n));
        assert(key@ =~= old(key)@ + cleaned(c));
    }
}

/// The key of a title that ends in `c` is the key of what comes before,
/// then `c` as it stands in a key.
pub proof fn key_of_longer_title(title: Seq<char>, c: char)
    ensures
        key_text(title.push(c)) == key_text(title) + cleaned(c),
    decreases title.len(),
{
    let longer = title.push(c);
    if title.len() == 0 {
        assert(longer.drop_first() =~= Seq::<char>::empty());
        assert(key_text(longer.drop_first()) =~= Seq::<char>::empty());
        assert(key_text(longer) =~= key_text(title) + cleaned(c));
    } else {
        key_of_longer_title(title.drop_first(), c);
        assert(longer.drop_first() =~= title.drop_first().push(c));
        assert(key_text(longer) =~= key_text(title) + cleaned(c));
    }
}

/// The key that the cover of `title` is filed under.
pub fn cover_key(title: &str) -> (key: String)
    ensures
        key@ == key_text(title@),
{
    let n = title.unicode_len();
    let mut key = String::new();
    let mut i: usize = 0;
    while i < n
        invariant
            n == title@.len(),
            i <= n,
            key@ == key_text(title@.take(i as int)),
        decreases n - i,
    {
        let c = title.get_char(i);
        proof {
            key_of_longer_title(title@.take(i as int), c);
            assert(title@.take(i as int).push(c) =~= title@.take(i + 1));
        }
        push_cleaned(&mut key, c);
        i = i + 1;
    }
    assert(title@.take(n as int) =~= title@);
    key
}

/// The directory that covers are kept in.
pub fn directory() -> (name: &'static str)
    ensures
        name@ == "covers"@,
{
    "covers"
}

/// The path that the cover of `title` is kept at.
pub fn cover_path(title: &str) -> (path: String)
    ensures
        path@ == path_text(title@),
{
    let key = cover_key(title);
    let mut path = String::from_str(directory());
    path.append("/");
    path.append(key.as_str());
    path.append(".jpg");
    path
}

proof fn hex_digits_differ(a: int, b: int)
    requires
        0 <= a < 16,
        0 <= b < 16,
        hex_digit(a) == hex_digit(b),
    ensures
        a == b,
{
}

proof fn written_out_separates(a: char, b: char)
    requires
        written_out(a) == written_out(b),
    ensures
        a == b,
{
    let n = a as u32 as int;
    let m = b as u32 as int;
    let x = written_out(a);
    let y = written_out(b);
    assert(x[1] == y[1] && x[2] == y[2] && x[3] == y[3] && x[4] == y[4] && x[5] == y[5] && x[6]
        == y[6]);
    hex_digits_differ(n / 0x100000 % 16, m / 0x100000 % 16);
    hex_digits_differ(n / 0x10000 % 16, m / 0x10000 % 16);
    hex_digits_differ(n / 0x1000 % 16, m / 0x1000 % 16);
    hex_digits_differ(n / 0x100 % 16, m / 0x100 % 16);
    hex_digits_differ(n / 0x10 % 16, m / 0x10 % 16);
    hex_digits_differ(n % 16, m % 16);
    assert(n < 0x1000000 && m < 0x1000000);
    assert(n == m);
}

/// A key holds plain characters only, whatever the title: no separator of
/// directories, no dot.
pub proof fn key_is_plain(title: Seq<char>)
    ensures
        forall|i: int| 0 <= i < key_text(title).len() ==> is_plain(#[trigger] key_text(title)[i]),
    decreases title.len(),
{
    if title.len() > 0 {
        key_is_plain(title.drop_first());
        let head = cleaned(title.first());
        let tail = key_text(title.drop_first());
        assert forall|i: int| 0 <= i < key_text(title).len() implies is_plain(
            #[trigger] key_text(title)[i],
        ) by {
            if i < head.len() {
                assert(key_text(title)[i] == head[i]);
            } else {
                assert(key_text(title)[i] == tail[i - head.len()]);
            }
        }
    }
}

/// A title of letters, digits, spaces and hyphens is its own key.
pub proof fn kept_title_is_key(title: Seq<char>)
    requires
        forall|i: int| 0 <= i < title.len() ==> is_kept(#[trigger] title[i]),
    ensures
        key_text(title) == title,
    decreases title.len(),
{
    if title.len() > 0 {
        let rest = title.drop_first();
        assert forall|i: int| 0 <= i < rest.len() implies is_kept(#[trigger] rest[i]) by {
            assert(rest[i] == title[i + 1]);
        }
        kept_title_is_key(rest);
        assert(is_kept(title[0]));
        assert(key_text(title) =~= title);
    }
}

/// Two titles with the same key are the same title.
pub proof fn keys_separate_titles(a: Seq<char>, b: Seq<char>)
    requires
        key_text(a) == key_text(b),
    ensures
        a == b,
    decreases a.len(),
{
    if a.len() == 0 || b.len() == 0 {
        if a.len() > 0 {
            assert(cleaned(a.first()).len() > 0);
            assert(key_text(a).len() == cleaned(a.first()).len() + key_text(a.drop_first()).len());
            assert(key_text(b).len() == 0);
        }
        if b.len() > 0 {
            assert(cleaned(b.first()).len() > 0);
            assert(key_text(b).len() == cleaned(b.first()).len() + key_text(b.drop_first()).len());
            assert(key_text(a).len() == 0);
        }
        assert(a =~= b);
    } else {
        let key = key_text(a);
        let ka = key_text(a.drop_first());
        let kb = key_text(b.drop_first());
        let ca = cleaned(a.first());
        let cb = cleaned(b.first());
        assert(key == ca + ka);
        assert(key == cb + kb);
        assert(key[0] == ca[0] && key[0] == cb[0]);
        if is_kept(a.first()) {
            assert(is_kept(b.first()));
            assert(a.first() == b.first());
            assert(ka =~= key.drop_first());
            assert(kb =~= key.drop_first());
        } else {
            assert(!is_kept(b.first()));
            assert(ca =~= key.take(7));
            assert(cb =~= key.take(7));
            written_out_separates(a.first(), b.first());
            assert(ka =~= key.skip(7));
            assert(kb =~= key.skip(7));
        }
        keys_separate_titles(a.drop_first(), b.drop_first());
        assert(a.len() == b.len());
        assert forall|i: int| 0 <= i < a.len() implies a[i] == b[i] by {
            if i > 0 {
                assert(a[i] == a.drop_first()[i - 1]);
                assert(b[i] == b.drop_first()[i - 1]);
            }
        }
        assert(a =~= b);
    }
}

/// Two titles whose covers are kept at the same path are the same title.
pub proof fn paths_separate_titles(a: Seq<char>, b: Seq<char>)
    requires
        path_text(a) == path_text(b),
    ensures
        a == b,
{
    let front = "covers"@ + "/"@;
    let back = ".jpg"@;
    let pa = path_text(a);
    let pb = path_text(b);
    assert(pa == front + key_text(a) + back);
    assert(pb == front + key_text(b) + back);
    assert(pa.len() == front.len() + key_text(a).len() + back.len());
    assert(pb.len() == front.len() + key_text(b).len() + back.len());
    assert(key_text(a) =~= pa.subrange(front.len() as int, pa.len() - back.len()));
    assert(key_text(b) =~= pb.subrange(front.len() as int, pb.len() - back.len()));
    keys_separate_titles(a, b);
}

} // verus!
