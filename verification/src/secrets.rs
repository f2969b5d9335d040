//! Masking of secrets before they are written anywhere.

use vstd::prelude::*;
use vstd::string::*;
use vstd::utf8::*;

verus! {

/// Secrets of up to this many bytes are starred out altogether.
pub const STARRED_LENGTH: usize = 8;

/// How many bytes of a longer secret are shown at either end.
pub const SHOWN_LENGTH: usize = 4;

/// Whether the shown ends of a secret are whole characters, so that it can be masked.
pub open spec fn maskable(secret: Seq<char>) -> bool {
    let bytes = encode_utf8(secret);
    bytes.len() > STARRED_LENGTH ==> {
        &&& is_char_boundary(bytes, SHOWN_LENGTH as int)
        &&& is_char_boundary(bytes, bytes.len() - SHOWN_LENGTH)
    }
}

/// Whether an optional secret can be masked.
pub open spec fn maskable_option(secret: Option<Seq<char>>) -> bool {
    secret matches Some(text) ==> maskable(text)
}

/// `n` stars.
pub open spec fn stars(n: nat) -> Seq<char> {
    Seq::new(n, |i: int| '*')
}

/// What is shown of a secret: nothing of an empty one, a star for each byte of a short one, the
/// first and the last bytes of a longer one.
pub open spec fn masked(secret: Seq<char>) -> Option<Seq<char>> {
    let bytes = encode_utf8(secret);
    let n = bytes.len() as int;
    if secret.len() == 0 {
        None
    } else if n <= STARRED_LENGTH {
        Some(stars(n as nat))
    } else {
        Some(
            decode_utf8(bytes.subrange(0, SHOWN_LENGTH as int)) + "..."@ + decode_utf8(
                bytes.subrange(n - SHOWN_LENGTH, n),
            ),
        )
    }
}

/// What is shown of an optional secret.
pub open spec fn masked_option(secret: Option<Seq<char>>) -> Option<Seq<char>> {
    match secret {
        Some(text) => masked(text),
        None => None,
    }
}

/// Whether a secret can be masked.
pub fn can_mask(secret: &str) -> (yes: bool)
    ensures
        yes == maskable(secret@),
{
    let n = secret.as_bytes().len();
    n <= STARRED_LENGTH || (secret.is_char_boundary(SHOWN_LENGTH) && secret.is_char_boundary(
        n - SHOWN_LENGTH,
    ))
}

/// Whether an optional secret can be masked.
pub fn can_mask_option(secret: &Option<String>) -> (yes: bool)
    ensures
        yes == maskable_option(crate::text::option_view(*secret)),
{
    match secret {
        Some(text) => can_mask(text.as_str()),
        None => true,
    }
}

/// What may be shown of a secret.
pub fn mask_secret(value: Option<String>) -> (shown: Option<String>)
    requires
        maskable_option(crate::text::option_view(value)),
    ensures
        crate::text::option_view(shown) == masked_option(crate::text::option_view(value)),
{
    broadcast use encode_utf8_decode_utf8;

    let secret = match value {
        Some(secret) => secret,
        None => {
            return None;
        },
    };
    let text = secret.as_str();
    if text.is_empty() {
        return None;
    }
    let n = text.as_bytes().len();
    if n <= STARRED_LENGTH {
        let mut out = String::new();
        let mut i: usize = 0;
        while i < n
            invariant
                i <= n,
                out@ == stars(i as nat),
            decreases n - i,
        {
            out.push('*');
            i = i + 1;
        }
        return Some(out);
    }
    let (head, _) = text.split_at(SHOWN_LENGTH);
    let (_, tail) = text.split_at(n - SHOWN_LENGTH);
    assert(head@ == decode_utf8(head.spec_bytes()));
    assert(tail@ == decode_utf8(tail.spec_bytes()));
    Some(crate::text::join3(head, "...", tail))
}

/// Of a long secret nothing shows but its first and last bytes: secrets that agree there look the
/// same, however long they are and whatever lies between.
pub proof fn mask_hides_the_middle(a: Seq<char>, b: Seq<char>)
    requires
        encode_utf8(a).len() > STARRED_LENGTH,
        encode_utf8(b).len() > STARRED_LENGTH,
        encode_utf8(a).take(SHOWN_LENGTH as int) == encode_utf8(b).take(SHOWN_LENGTH as int),
        encode_utf8(a).skip(encode_utf8(a).len() - SHOWN_LENGTH) == encode_utf8(b).skip(
            encode_utf8(b).len() - SHOWN_LENGTH,
        ),
    ensures
        masked(a) == masked(b),
{
    let x = encode_utf8(a);
    let y = encode_utf8(b);
    assert(x.subrange(0, SHOWN_LENGTH as int) =~= x.take(SHOWN_LENGTH as int));
    assert(y.subrange(0, SHOWN_LENGTH as int) =~= y.take(SHOWN_LENGTH as int));
    assert(x.subrange(x.len() - SHOWN_LENGTH, x.len() as int) =~= x.skip(x.len() - SHOWN_LENGTH));
    assert(y.subrange(y.len() - SHOWN_LENGTH, y.len() as int) =~= y.skip(y.len() - SHOWN_LENGTH));
}

/// Of a short secret nothing shows but its length.
pub proof fn mask_hides_short_secrets(a: Seq<char>, b: Seq<char>)
    requires
        encode_utf8(a).len() == encode_utf8(b).len(),
        encode_utf8(a).len() <= STARRED_LENGTH,
        a.len() > 0,
        b.len() > 0,
    ensures
        masked(a) == masked(b),
{
}

/// An ASCII secret can always be masked; if it is long, its first and last four characters show.
pub proof fn mask_of_ascii(secret: Seq<char>)
    requires
        is_ascii_chars(secret),
    ensures
        maskable(secret),
        secret.len() > STARRED_LENGTH ==> masked(secret) == Some(
            secret.take(SHOWN_LENGTH as int) + "..."@ + secret.skip(secret.len() - SHOWN_LENGTH),
        ),
        0 < secret.len() <= STARRED_LENGTH ==> masked(secret) == Some(stars(secret.len())),
        secret.len() == 0 ==> masked(secret) is None,
{
    is_ascii_chars_encode_utf8(secret);
    let bytes = encode_utf8(secret);
    let n = bytes.len() as int;
    encode_utf8_valid_utf8(secret);
    if n > STARRED_LENGTH {
        is_char_boundary_iff_not_is_continuation_byte(bytes, SHOWN_LENGTH as int);
        is_char_boundary_iff_not_is_continuation_byte(bytes, n - SHOWN_LENGTH);
        let head = secret.take(SHOWN_LENGTH as int);
        let tail = secret.skip(n - SHOWN_LENGTH);
        is_ascii_chars_encode_utf8(head);
        is_ascii_chars_encode_utf8(tail);
        assert(bytes.subrange(0, SHOWN_LENGTH as int) =~= encode_utf8(head));
        assert(bytes.subrange(n - SHOWN_LENGTH, n) =~= encode_utf8(tail));
        encode_utf8_decode_utf8(head);
        encode_utf8_decode_utf8(tail);
    }
}

/// What is shown of a secret can itself be masked, and looks the same then: masking twice is
/// masking once.
pub proof fn masking_is_final(secret: Seq<char>)
    requires
        maskable(secret),
    ensures
        masked(secret) matches Some(shown) ==> maskable(shown) && masked(shown) == Some(shown),
{
    let bytes = encode_utf8(secret);
    let n = bytes.len() as int;
    if secret.len() > 0 && n <= STARRED_LENGTH {
        let shown = stars(n as nat);
        is_ascii_chars_encode_utf8(shown);
        encode_utf8_first_scalar(secret);
        assert(n > 0);
    } else if secret.len() > 0 {
        encode_utf8_valid_utf8(secret);
        valid_utf8_split(bytes, SHOWN_LENGTH as int);
        valid_utf8_split(bytes, n - SHOWN_LENGTH);
        let head = bytes.subrange(0, SHOWN_LENGTH as int);
        let tail = bytes.subrange(n - SHOWN_LENGTH, n);
        let dots = encode_utf8("..."@);
        reveal_strlit("...");
        is_ascii_chars_encode_utf8("..."@);
        let shown = decode_utf8(head) + "..."@ + decode_utf8(tail);
        encode_of_joined(decode_utf8(head), "..."@, decode_utf8(tail));
        decode_utf8_encode_utf8(head);
        decode_utf8_encode_utf8(tail);
        let whole = encode_utf8(shown);
        assert(whole == head + dots + tail);
        assert(whole.len() == 11);
        assert(whole.subrange(0, SHOWN_LENGTH as int) =~= head);
        assert(whole.subrange(11 - SHOWN_LENGTH, 11) =~= tail);
        encode_utf8_valid_utf8(shown);
        is_char_boundary_iff_not_is_continuation_byte(bytes, n - SHOWN_LENGTH);
        is_char_boundary_iff_not_is_continuation_byte(whole, SHOWN_LENGTH as int);
        is_char_boundary_iff_not_is_continuation_byte(whole, 11 - SHOWN_LENGTH);
        assert(whole[SHOWN_LENGTH as int] == dots[0]);
        assert(whole[11 - SHOWN_LENGTH] == bytes[n - SHOWN_LENGTH]);
    }
}

proof fn encode_of_joined(a: Seq<char>, b: Seq<char>, c: Seq<char>)
    ensures
        encode_utf8(a + b + c) == encode_utf8(a) + encode_utf8(b) + encode_utf8(c),
{
    encode_of_pair(a, b);
    encode_of_pair(a + b, c);
}

proof fn encode_of_pair(a: Seq<char>, b: Seq<char>)
    ensures
        encode_utf8(a + b) == encode_utf8(a) + encode_utf8(b),
    decreases a.len(),
{
    if a.len() == 0 {
        assert(a + b =~= b);
        assert(encode_utf8(a) + encode_utf8(b) =~= encode_utf8(b));
    } else {
        assert((a + b).drop_first() =~= a.drop_first() + b);
        encode_of_pair(a.drop_first(), b);
        assert(encode_utf8(a + b) =~= encode_utf8(a) + encode_utf8(b));
    }
}

/// Of an empty secret nothing is shown. Of up to eight bytes a star for each is shown. Of more,
/// eleven bytes are shown: the first four, three dots, and the last four.
pub proof fn a_mask_shows_four_bytes_at_either_end(secret: Seq<char>)
    requires
        maskable(secret),
    ensures
        ({
            let bytes = encode_utf8(secret);
            let n = bytes.len() as int;
            &&& n == 0 ==> masked(secret) is None
            &&& 0 < n <= 8 ==> masked(secret) is Some && masked(secret)->0.len() == n && forall|
                i: int,
            |
                0 <= i < n ==> #[trigger] masked(secret)->0[i] == '*'
            &&& n > 8 ==> masked(secret) is Some && encode_utf8(masked(secret)->0)
                == bytes.subrange(0, 4) + seq![46u8, 46u8, 46u8] + bytes.subrange(n - 4, n)
        }),
        masked_option(None) is None,
        masked_option(Some(secret)) == masked(secret),
{
    let bytes = encode_utf8(secret);
    let n = bytes.len() as int;
    if secret.len() > 0 {
        encode_utf8_first_scalar(secret);
    }
    if n > STARRED_LENGTH {
        encode_utf8_valid_utf8(secret);
        valid_utf8_split(bytes, SHOWN_LENGTH as int);
        valid_utf8_split(bytes, n - SHOWN_LENGTH);
        let head = bytes.subrange(0, SHOWN_LENGTH as int);
        let tail = bytes.subrange(n - SHOWN_LENGTH, n);
        reveal_strlit("...");
        is_ascii_chars_encode_utf8("..."@);
        assert(encode_utf8("..."@) =~= seq![46u8, 46u8, 46u8]);
        encode_of_joined(decode_utf8(head), "..."@, decode_utf8(tail));
        decode_utf8_encode_utf8(head);
        decode_utf8_encode_utf8(tail);
    }
}

/// A secret can be masked exactly if it has up to eight bytes, or neither its fifth byte nor its
/// fourth from the end goes on with a character.
pub proof fn a_mask_cuts_between_characters(secret: Seq<char>)
    ensures
        ({
            let bytes = encode_utf8(secret);
            let n = bytes.len() as int;
            maskable(secret) <==> n <= 8 || (!(128 <= bytes[4] < 192) && !(128 <= bytes[n - 4]
                < 192))
        }),
        maskable_option(None),
        maskable_option(Some(secret)) == maskable(secret),
{
    let bytes = encode_utf8(secret);
    let n = bytes.len() as int;
    encode_utf8_valid_utf8(secret);
    if n > 8 {
        is_char_boundary_iff_not_is_continuation_byte(bytes, 4);
        is_char_boundary_iff_not_is_continuation_byte(bytes, n - 4);
        utf8_byte_ranges_bitwise(bytes[4]);
        utf8_byte_ranges_bitwise(bytes[n - 4]);
    }
}

} // verus!
