//! The `application/x-www-form-urlencoded` form of a query string, and the
//! plain text forms of numbers and lists that go into one.

use vstd::prelude::*;
use vstd::utf8::*;

verus! {

/// Whether form encoding leaves the byte as it is: an ASCII letter or digit,
/// or one of `*`, `-`, `.`, `_`.
pub open spec fn is_unreserved(b: u8) -> bool {
    ||| b == 0x2A
    ||| b == 0x2D
    ||| b == 0x2E
    ||| b == 0x5F
    ||| 0x30 <= b <= 0x39
    ||| 0x41 <= b <= 0x5A
    ||| 0x61 <= b <= 0x7A
}

/// The upper-case hexadecimal digit of a value below sixteen.
pub open spec fn hex_digit(n: nat) -> char {
    if n < 10 {
        (0x30 + n) as u8 as char
    } else {
        (0x37 + n) as u8 as char
    }
}

/// What one byte becomes: itself where it is unreserved, `+` for a space,
/// and otherwise `%` with its two hexadecimal digits.
pub open spec fn encoded_byte(b: u8) -> Seq<char> {
    if is_unreserved(b) {
        seq![b as char]
    } else if b == 0x20 {
        seq!['+']
    } else {
        seq!['%', hex_digit(b as nat / 16), hex_digit(b as nat % 16)]
    }
}

/// The form encoding of a byte string: the encodings of its bytes, in order.
pub open spec fn encoded_bytes(bytes: Seq<u8>) -> Seq<char>
    decreases bytes.len(),
{
    if bytes.len() == 0 {
        Seq::empty()
    } else {
        encoded_byte(bytes[0]) + encoded_bytes(bytes.drop_first())
    }
}

/// The form encoding of a text: that of its UTF-8 bytes.
#[verifier::opaque]
pub open spec fn form_encoded(text: Seq<char>) -> Seq<char> {
    encoded_bytes(encode_utf8(text))
}

/// One `name=value` pair of a query string.
pub open spec fn encoded_pair(pair: (Seq<char>, Seq<char>)) -> Seq<char> {
    form_encoded(pair.0) + seq!['='] + form_encoded(pair.1)
}

/// The query string of a list of pairs: the encoded pairs with `&` between
/// them.
pub open spec fn query_string(pairs: Seq<(Seq<char>, Seq<char>)>) -> Seq<char>
    decreases pairs.len(),
{
    if pairs.len() == 0 {
        Seq::empty()
    } else if pairs.len() == 1 {
        encoded_pair(pairs[0])
    } else {
        query_string(pairs.drop_last()) + seq!['&'] + encoded_pair(pairs.last())
    }
}

/// The pairs of a list of owned pairs, each text by its view.
pub open spec fn pair_views(pairs: Seq<(String, String)>) -> Seq<(Seq<char>, Seq<char>)> {
    pairs.map_values(|p: (String, String)| (p.0@, p.1@))
}

/// Texts in a row may be grouped either way.
pub proof fn lemma_concat_assoc(a: Seq<char>, b: Seq<char>, c: Seq<char>)
    ensures
        (a + b) + c == a + (b + c),
{
    assert((a + b) + c =~= a + (b + c));
}

/// The query string of four pairs, written out.
pub proof fn lemma_query_string_of_four(
    a: (Seq<char>, Seq<char>),
    b: (Seq<char>, Seq<char>),
    c: (Seq<char>, Seq<char>),
    d: (Seq<char>, Seq<char>),
)
    ensures
        query_string(seq![a, b, c, d]) == encoded_pair(a) + seq!['&'] + encoded_pair(b) + seq!['&']
            + encoded_pair(c) + seq!['&'] + encoded_pair(d),
{
    let four = seq![a, b, c, d];
    let three = seq![a, b, c];
    let two = seq![a, b];
    let one = seq![a];
    assert(four.drop_last() =~= three);
    assert(three.drop_last() =~= two);
    assert(two.drop_last() =~= one);
    assert(query_string(one) == encoded_pair(a));
    assert(query_string(two) == query_string(one) + seq!['&'] + encoded_pair(b));
    assert(query_string(three) == query_string(two) + seq!['&'] + encoded_pair(c));
    assert(query_string(four) == query_string(three) + seq!['&'] + encoded_pair(d));
}

/// Serializes pairs with `url::form_urlencoded::Serializer`: `new` over an
/// empty `String`, `extend_pairs`, `finish`.
///
/// The contract restates what that serializer does: before every pair but
/// the first it writes `&`; then it writes the name, `=`, and the value,
/// each as `form_urlencoded::byte_serialize` gives its UTF-8 bytes, which
/// keeps a byte that `is_unreserved`, writes `+` for a space, and otherwise
/// `%` with two upper-case hexadecimal digits. This is taken from the
/// crate's source and is not proved here.
#[verifier::external_body]
pub(crate) fn serialize_pairs(pairs: &Vec<(String, String)>) -> (text: String)
    ensures
        text@ == query_string(pair_views(pairs@)),
{
    url::form_urlencoded::Serializer::new(String::new()).extend_pairs(pairs).finish()
}

/// Whether a character is one that form encoding leaves as it is.
pub open spec fn is_unreserved_char(c: char) -> bool {
    c as u32 <= 0x7F && is_unreserved(c as u8)
}

/// Whether form encoding leaves every character of the text as it is.
pub open spec fn is_unreserved_text(text: Seq<char>) -> bool {
    forall|i: int| 0 <= i < text.len() ==> is_unreserved_char(#[trigger] text[i])
}

/// The UTF-8 bytes of two texts in a row are the bytes of the first followed
/// by those of the second.
pub proof fn lemma_utf8_concat(a: Seq<char>, b: Seq<char>)
    ensures
        encode_utf8(a + b) == encode_utf8(a) + encode_utf8(b),
    decreases a.len(),
{
    if a.len() == 0 {
        assert(a + b =~= b);
        assert(encode_utf8(a) + encode_utf8(b) =~= encode_utf8(b));
    } else {
        lemma_utf8_concat(a.drop_first(), b);
        assert((a + b).drop_first() =~= a.drop_first() + b);
        assert(encode_utf8(a + b) =~= encode_utf8(a) + encode_utf8(b));
    }
}

/// Encoding byte strings in a row encodes each in its place.
pub proof fn lemma_encoded_bytes_concat(a: Seq<u8>, b: Seq<u8>)
    ensures
        encoded_bytes(a + b) == encoded_bytes(a) + encoded_bytes(b),
    decreases a.len(),
{
    if a.len() == 0 {
        assert(a + b =~= b);
        assert(encoded_bytes(a) + encoded_bytes(b) =~= encoded_bytes(b));
    } else {
        lemma_encoded_bytes_concat(a.drop_first(), b);
        assert((a + b).drop_first() =~= a.drop_first() + b);
        assert(encoded_bytes(a + b) =~= encoded_bytes(a) + encoded_bytes(b));
    }
}

/// Form encoding works piece by piece: the encoding of two texts in a row is
/// the two encodings in a row.
pub proof fn lemma_form_encoded_concat(a: Seq<char>, b: Seq<char>)
    ensures
        form_encoded(a + b) == form_encoded(a) + form_encoded(b),
{
    reveal(form_encoded);
    lemma_utf8_concat(a, b);
    lemma_encoded_bytes_concat(encode_utf8(a), encode_utf8(b));
}

/// An ASCII character is encoded as its one byte is.
pub proof fn lemma_form_encoded_ascii(c: char)
    requires
        c as u32 <= 0x7F,
    ensures
        form_encoded(seq![c]) == encoded_byte(c as u8),
{
    reveal(form_encoded);
    let text = seq![c];
    assert(is_ascii_chars(text));
    is_ascii_chars_encode_utf8(text);
    let bytes = encode_utf8(text);
    assert(bytes.len() == 1);
    assert(bytes[0] == c as u8);
    assert(bytes.drop_first() =~= Seq::<u8>::empty());
    assert(encoded_bytes(bytes.drop_first()) =~= Seq::<char>::empty());
    assert(encoded_bytes(bytes) =~= encoded_byte(bytes[0]));
}

/// An ASCII character is the character of its byte.
pub proof fn lemma_ascii_round_trip(c: char)
    requires
        c as u32 <= 0x7F,
    ensures
        (c as u8) as char == c,
{
    let u: u32 = c as u32;
    assert(u as u8 as u32 == u) by (bit_vector)
        requires
            u <= 0x7F,
    ;
    assert(c as u8 == u as u8);
    assert((u as u8) as u32 == u);
    char_u32_cast(c, u);
    assert((u as u8) as char == u as char);
}

/// A text of unreserved characters is its own form encoding.
pub proof fn lemma_form_encoded_unreserved(text: Seq<char>)
    requires
        is_unreserved_text(text),
    ensures
        form_encoded(text) == text,
    decreases text.len(),
{
    if text.len() == 0 {
        reveal(form_encoded);
        assert(form_encoded(text) =~= text);
    } else {
        let head = seq![text[0]];
        let tail = text.drop_first();
        assert(text =~= head + tail);
        assert(is_unreserved_char(text[0]));
        assert forall|i: int| 0 <= i < tail.len() implies is_unreserved_char(
            #[trigger] tail[i],
        ) by {
            assert(tail[i] == text[i + 1]);
        }
        lemma_form_encoded_unreserved(tail);
        lemma_form_encoded_ascii(text[0]);
        lemma_form_encoded_concat(head, tail);
        lemma_ascii_round_trip(text[0]);
        assert(form_encoded(head) =~= head);
    }
}

/// The character of a decimal digit.
pub open spec fn digit(n: nat) -> char {
    (0x30 + n) as u8 as char
}

/// A number written in decimal, without leading zeros.
pub open spec fn decimal(n: nat) -> Seq<char>
    decreases n,
{
    if n < 10 {
        seq![digit(n)]
    } else {
        decimal(n / 10).push(digit(n % 10))
    }
}

/// A decimal digit is an unreserved character.
pub proof fn lemma_digit_unreserved(n: nat)
    requires
        n < 10,
    ensures
        is_unreserved_char(digit(n)),
{
    if n == 0 {
        assert(digit(0) == '0');
    } else if n == 1 {
        assert(digit(1) == '1');
    } else if n == 2 {
        assert(digit(2) == '2');
    } else if n == 3 {
        assert(digit(3) == '3');
    } else if n == 4 {
        assert(digit(4) == '4');
    } else if n == 5 {
        assert(digit(5) == '5');
    } else if n == 6 {
        assert(digit(6) == '6');
    } else if n == 7 {
        assert(digit(7) == '7');
    } else if n == 8 {
        assert(digit(8) == '8');
    } else {
        assert(digit(9) == '9');
    }
}

/// A number in decimal is its own form encoding.
pub proof fn lemma_form_encoded_decimal(n: nat)
    ensures
        is_unreserved_text(decimal(n)),
        form_encoded(decimal(n)) == decimal(n),
    decreases n,
{
    if n < 10 {
        lemma_digit_unreserved(n);
    } else {
        lemma_form_encoded_decimal(n / 10);
        lemma_digit_unreserved(n % 10);
        let front = decimal(n / 10);
        assert forall|i: int| 0 <= i < decimal(n).len() implies is_unreserved_char(
            #[trigger] decimal(n)[i],
        ) by {
            if i < front.len() {
                assert(decimal(n)[i] == front[i]);
            }
        }
    }
    lemma_form_encoded_unreserved(decimal(n));
}

/// The text of one decimal digit.
fn digit_text(d: u32) -> (text: &'static str)
    requires
        d < 10,
    ensures
        text@ == seq![digit(d as nat)],
{
    proof {
        reveal_strlit("0");
        reveal_strlit("1");
        reveal_strlit("2");
        reveal_strlit("3");
        reveal_strlit("4");
        reveal_strlit("5");
        reveal_strlit("6");
        reveal_strlit("7");
        reveal_strlit("8");
        reveal_strlit("9");
    }
    let text = match d {
        0 => "0",
        1 => "1",
        2 => "2",
        3 => "3",
        4 => "4",
        5 => "5",
        6 => "6",
        7 => "7",
        8 => "8",
        _ => "9",
    };
    assert(text@ =~= seq![digit(d as nat)]);
    text
}

/// Writes a number in decimal.
pub fn decimal_text(n: u32) -> (text: String)
    ensures
        text@ == decimal(n as nat),
    decreases n,
{
    if n < 10 {
        String::from_str(digit_text(n))
    } else {
        let mut text = decimal_text(n / 10);
        text.append(digit_text(n % 10));
        assert(text@ =~= decimal(n as nat));
        text
    }
}

/// The texts of a list with a separator between them.
pub open spec fn joined(parts: Seq<Seq<char>>, separator: Seq<char>) -> Seq<char>
    decreases parts.len(),
{
    if parts.len() == 0 {
        Seq::empty()
    } else if parts.len() == 1 {
        parts[0]
    } else {
        joined(parts.drop_last(), separator) + separator + parts.last()
    }
}

/// The texts of a list of borrowed texts.
pub open spec fn text_views(parts: Seq<&str>) -> Seq<Seq<char>> {
    parts.map_values(|p: &str| p@)
}

/// Joins the texts of a list with a separator between them.
pub fn join(parts: &[&str], separator: &str) -> (text: String)
    ensures
        text@ == joined(text_views(parts@), separator@),
{
    let mut text = String::new();
    let mut i: usize = 0;
    while i < parts.len()
        invariant
            i <= parts@.len(),
            text@ == joined(text_views(parts@.take(i as int)), separator@),
        decreases parts@.len() - i,
    {
        if i > 0 {
            text.append(separator);
        }
        text.append(parts[i]);
        proof {
            let before = text_views(parts@.take(i as int));
            let now = text_views(parts@.take(i + 1));
            assert(now.drop_last() =~= before);
            assert(now.last() == parts@[i as int]@);
            if i == 0 {
                assert(text@ =~= parts@[0]@);
            }
        }
        i += 1;
    }
    proof {
        assert(parts@.take(i as int) =~= parts@);
    }
    text
}

} // verus!
