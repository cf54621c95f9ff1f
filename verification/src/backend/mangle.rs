//! Name mangling for anonymous function literals: a human-unreadable
//! placeholder built from a per-compilation counter is hashed, a fixed-length
//! hexadecimal prefix of the digest is taken, and the final symbol is
//! assembled from both.  The scheme is deterministic (a pure function of the
//! counter) and injective.
use crate::text::dec_str;
use crate::text::is_digit_char;
use crate::text::lemma_dec_str_digits;
use crate::text::lemma_dec_str_injective;
use crate::text::lemma_trailing_digits_append;
use crate::text::trailing_digits;
use crate::text::u64_to_string;
use core::hash::BuildHasher;
use core::hash::Hasher;
use vstd::prelude::*;

verus! {

/// The lowercase hexadecimal rendering of the SHA-512 digest of a text; a
/// fixed but unstated function of the text alone.
pub uninterp spec fn sha512_hex_of(s: Seq<char>) -> Seq<char>;

/// Whether a character is a lowercase hexadecimal digit.
pub open spec fn is_lower_hex_digit(c: char) -> bool {
    ('0' <= c && c <= '9') || ('a' <= c && c <= 'f')
}

/// Relies on rs_shield's SHA-512 (`Sha512State::default().build_hasher()`,
/// `Hasher::write`, `HasherContext::finish`): the 64-byte digest is a function
/// of the written bytes alone, and the `{:02x}` rendering of its
/// `ByteArrayWrapper` emits exactly two lowercase hexadecimal digits per byte.
#[verifier::external_body]
fn sha512_lower_hex(s: &str) -> (r: String)
    ensures
        r@ == sha512_hex_of(s@),
        r@.len() == 128,
        forall|i: int| 0 <= i < r@.len() ==> is_lower_hex_digit(#[trigger] r@[i]),
{
    let mut hasher = rs_shield::Sha512State::default().build_hasher();
    hasher.write(s.as_bytes());
    let digest = rs_shield::HasherContext::finish(&mut hasher);
    format!("{:02x}", digest)
}

/// The placeholder text hashed for the function with counter value `id`.
pub open spec fn mangle_placeholder(id: nat) -> Seq<char> {
    "abcdefg_fn"@ + dec_str(id) + "_hijklmn"@
}

/// The generated symbol for the function with counter value `id`: an
/// underscore, the first twenty digest characters of the placeholder's hash,
/// an underscore, and the placeholder itself.
pub open spec fn mangled_name(id: nat) -> Seq<char> {
    "_"@ + sha512_hex_of(mangle_placeholder(id)).take(20) + "_"@ + mangle_placeholder(id)
}

/// Builds the generated symbol for counter value `id`.
pub fn mangled_function_name(id: usize) -> (r: String)
    ensures
        r@ == mangled_name(id as nat),
{
    proof {
        reveal_strlit("abcdefg_fn");
        reveal_strlit("_hijklmn");
        reveal_strlit("_");
    }
    let mut placeholder = String::from_str("abcdefg_fn");
    let num = u64_to_string(id as u64);
    placeholder.append(num.as_str());
    placeholder.append("_hijklmn");
    proof {
        assert(placeholder@ =~= mangle_placeholder(id as nat));
    }
    let hex = sha512_lower_hex(placeholder.as_str());
    let prefix = hex.as_str().substring_char(0, 20);
    let mut r = String::from_str("_");
    r.append(prefix);
    r.append("_");
    r.append(placeholder.as_str());
    proof {
        assert(prefix@ =~= sha512_hex_of(mangle_placeholder(id as nat)).take(20));
        assert(r@ =~= mangled_name(id as nat));
    }
    r
}

/// Mangling is injective: two distinct counter values always produce two
/// distinct generated symbols, whatever the digests are.  The counter value
/// can be read back off the generated name as the digit run in front of its
/// fixed tail, so no choice of digest characters can make two names collide.
pub proof fn lemma_mangled_name_injective(i: nat, j: nat)
    requires
        mangled_name(i) == mangled_name(j),
    ensures
        i == j,
{
    reveal_strlit("abcdefg_fn");
    reveal_strlit("_hijklmn");
    reveal_strlit("_");
    let tail = "_hijklmn"@;
    let front_i = "_"@ + sha512_hex_of(mangle_placeholder(i)).take(20) + "_"@ + "abcdefg_fn"@;
    let front_j = "_"@ + sha512_hex_of(mangle_placeholder(j)).take(20) + "_"@ + "abcdefg_fn"@;
    assert(mangled_name(i) =~= front_i + dec_str(i) + tail);
    assert(mangled_name(j) =~= front_j + dec_str(j) + tail);
    let body_i = front_i + dec_str(i);
    let body_j = front_j + dec_str(j);
    assert(body_i.len() + tail.len() == body_j.len() + tail.len());
    assert(body_i =~= body_j) by {
        assert forall|k: int| 0 <= k < body_i.len() implies body_i[k] == body_j[k] by {
            assert((body_i + tail)[k] == body_i[k]);
            assert((body_j + tail)[k] == body_j[k]);
        }
    }
    lemma_dec_str_digits(i);
    lemma_dec_str_digits(j);
    assert(front_i.last() == 'n');
    assert(front_j.last() == 'n');
    assert(!is_digit_char('n'));
    lemma_trailing_digits_append(front_i, dec_str(i));
    lemma_trailing_digits_append(front_j, dec_str(j));
    assert(dec_str(i) == dec_str(j));
    lemma_dec_str_injective(i, j);
}

} // verus!
