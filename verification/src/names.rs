//! Derivation of the generated names.
//!
//! The builder method for a variant defaults to a snake-case transform of
//! the variant's name; the companion dispatcher type defaults to the union's
//! name with a fixed suffix. Both derivations are total functions of the
//! input name alone.

use vstd::prelude::*;

verus! {

/// One character appended to a `String`.
/// Relies on `String::push`: pushing `c` appends exactly the character `c`.
#[verifier::external_body]
fn push_char(out: &mut String, c: char)
    ensures
        final(out)@ == old(out)@ + seq![c],
{
    out.push(c);
}

/// True of the ASCII upper-case letters.
pub open spec fn spec_is_upper(c: char) -> bool {
    'A' <= c && c <= 'Z'
}

/// True of the ASCII lower-case letters and digits.
pub open spec fn spec_is_lower_or_digit(c: char) -> bool {
    ('a' <= c && c <= 'z') || ('0' <= c && c <= '9')
}

/// The lower-case form of an ASCII upper-case letter; any other character is
/// returned unchanged.
pub open spec fn spec_to_lower(c: char) -> char {
    if spec_is_upper(c) {
        ((c as u8 + 32) as u8) as char
    } else {
        c
    }
}

/// What position `i` of `s` contributes to the snake-case form: an upper-case
/// letter is lowered, and separated by an underscore from a preceding
/// lower-case letter or digit.
pub open spec fn spec_snake_piece(s: Seq<char>, i: int) -> Seq<char> {
    if spec_is_upper(s[i]) {
        if i > 0 && spec_is_lower_or_digit(s[i - 1]) {
            seq!['_', spec_to_lower(s[i])]
        } else {
            seq![spec_to_lower(s[i])]
        }
    } else {
        seq![s[i]]
    }
}

/// The snake-case form of the first `i` characters of `s`.
pub open spec fn spec_snake_upto(s: Seq<char>, i: int) -> Seq<char>
    decreases i,
{
    if i <= 0 {
        Seq::empty()
    } else {
        spec_snake_upto(s, i - 1) + spec_snake_piece(s, i - 1)
    }
}

/// The snake-case transform of a name: every upper-case letter is lowered,
/// with an underscore inserted where it followed a lower-case letter or a
/// digit.
pub open spec fn spec_snake(s: Seq<char>) -> Seq<char> {
    spec_snake_upto(s, s.len() as int)
}

/// Computes [`spec_snake`], the default builder-method name for a variant.
pub fn snake_case(s: &str) -> (r: String)
    ensures
        r@ == spec_snake(s@),
{
    let n = s.unicode_len();
    let mut out = String::new();
    let mut i: usize = 0;
    while i < n
        invariant
            0 <= i <= n,
            n == s@.len(),
            out@ == spec_snake_upto(s@, i as int),
        decreases n - i,
    {
        let c = s.get_char(i);
        if 'A' <= c && c <= 'Z' {
            let sep = if i > 0 {
                let p = s.get_char(i - 1);
                ('a' <= p && p <= 'z') || ('0' <= p && p <= '9')
            } else {
                false
            };
            if sep {
                push_char(&mut out, '_');
            }
            assert(c as u8 + 32 < 256) by {
                assert(c <= 'Z');
            };
            push_char(&mut out, ((c as u8) + 32) as char);
            assert(out@ =~= spec_snake_upto(s@, i as int) + spec_snake_piece(s@, i as int));
        } else {
            push_char(&mut out, c);
            assert(out@ =~= spec_snake_upto(s@, i as int) + spec_snake_piece(s@, i as int));
        }
        i += 1;
    }
    out
}

/// The snake-case form of a name holds no upper-case letter.
pub proof fn lemma_snake_upto_lower(s: Seq<char>, i: int)
    ensures
        forall|j: int|
            0 <= j < spec_snake_upto(s, i).len() ==> !spec_is_upper(
                #[trigger] spec_snake_upto(s, i)[j],
            ),
    decreases i,
{
    if i > 0 {
        lemma_snake_upto_lower(s, i - 1);
        let prev = spec_snake_upto(s, i - 1);
        let piece = spec_snake_piece(s, i - 1);
        assert forall|j: int|
            0 <= j < spec_snake_upto(s, i).len() implies !spec_is_upper(
            #[trigger] spec_snake_upto(s, i)[j],
        ) by {
            assert(spec_snake_upto(s, i) == prev + piece);
            if j < prev.len() {
                assert(spec_snake_upto(s, i)[j] == prev[j]);
            } else {
                assert(spec_snake_upto(s, i)[j] == piece[j - prev.len()]);
                if spec_is_upper(s[i - 1]) {
                    assert(!spec_is_upper(spec_to_lower(s[i - 1])));
                }
            }
        };
    }
}

/// The default builder-method name never holds an upper-case letter.
pub proof fn lemma_snake_lower(s: Seq<char>)
    ensures
        forall|j: int|
            0 <= j < spec_snake(s).len() ==> !spec_is_upper(#[trigger] spec_snake(s)[j]),
{
    lemma_snake_upto_lower(s, s.len() as int);
}

/// The suffix that turns the union's name into the dispatcher's default name.
pub open spec fn spec_matcher_suffix() -> Seq<char> {
    "Matcher"@
}

/// The default dispatcher type name: the union's name with the fixed suffix.
pub open spec fn spec_default_matcher_name(e: Seq<char>) -> Seq<char> {
    e + spec_matcher_suffix()
}

/// Computes [`spec_default_matcher_name`].
pub fn default_matcher_name(e: &str) -> (r: String)
    ensures
        r@ == spec_default_matcher_name(e@),
{
    let mut out = e.to_owned();
    out.append("Matcher");
    out
}

/// The decimal digit character for `d`.
pub open spec fn spec_digit(d: int) -> char {
    ((d + 48) as u8) as char
}

/// The decimal text of `n`.
pub open spec fn spec_dec(n: nat) -> Seq<char>
    decreases n,
{
    if n < 10 {
        seq![spec_digit(n as int)]
    } else {
        spec_dec(n / 10) + seq![spec_digit((n % 10) as int)]
    }
}

/// Appends the decimal text of `n` to `out`.
pub fn write_dec(out: &mut String, n: usize)
    ensures
        final(out)@ == old(out)@ + spec_dec(n as nat),
    decreases n,
{
    if n < 10 {
        push_char(out, ((n as u8) + 48) as char);
    } else {
        write_dec(out, n / 10);
        push_char(out, (((n % 10) as u8) + 48) as char);
        assert(out@ =~= old(out)@ + spec_dec(n as nat));
    }
}

} // verus!
