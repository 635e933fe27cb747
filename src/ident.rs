use vstd::prelude::*;

verus! {

/// Number of characters in a paste identifier.
pub const ID_LENGTH: usize = 10;

/// Crockford's base-32 digits: no path separators, no letters that read
/// like digits.
pub open spec fn id_alphabet() -> Seq<char> {
    seq![
        '0', '1', '2', '3', '4', '5', '6', '7', '8', '9', 'A', 'B', 'C', 'D', 'E', 'F',
        'G', 'H', 'J', 'K', 'M', 'N', 'P', 'Q', 'R', 'S', 'T', 'V', 'W', 'X', 'Y', 'Z',
    ]
}

/// A well-formed paste identifier: `ID_LENGTH` characters of the alphabet.
pub open spec fn is_paste_id(s: Seq<char>) -> bool {
    &&& s.len() == ID_LENGTH
    &&& forall|i: int| 0 <= i < s.len() ==> id_alphabet().contains(#[trigger] s[i])
}

/// The identifier alphabet as a vector.
pub fn id_alphabet_chars() -> (r: Vec<char>)
    ensures
        r@ == id_alphabet(),
{
    let r: Vec<char> = vec![
        '0', '1', '2', '3', '4', '5', '6', '7', '8', '9', 'A', 'B', 'C', 'D', 'E', 'F',
        'G', 'H', 'J', 'K', 'M', 'N', 'P', 'Q', 'R', 'S', 'T', 'V', 'W', 'X', 'Y', 'Z',
    ];
    assert(r@ =~= id_alphabet());
    r
}

/// Relies on `nanoid::format` with the default (OS-seeded) generator: it
/// returns `size` characters, each drawn from `alphabet`. It needs a
/// non-empty alphabet of at most 255 single-byte characters and a positive
/// size (it asserts the first and loops forever without the others).
#[verifier::external_body]
fn random_id(alphabet: &[char], size: usize) -> (r: String)
    requires
        0 < alphabet@.len() <= 255,
        forall|i: int| 0 <= i < alphabet@.len() ==> (#[trigger] alphabet@[i] as u32) < 128,
        0 < size,
    ensures
        r@.len() == size,
        forall|i: int| 0 <= i < r@.len() ==> alphabet@.contains(#[trigger] r@[i]),
{
    nanoid::format(nanoid::rngs::default, alphabet, size)
}

/// A fresh random paste identifier.
pub fn generate_id() -> (r: String)
    ensures
        is_paste_id(r@),
{
    let alphabet = id_alphabet_chars();
    assert forall|i: int| 0 <= i < alphabet@.len() implies (#[trigger] alphabet@[i] as u32) < 128 by {
        assert(alphabet@[i] as u32 <= 'Z' as u32);
    }
    random_id(alphabet.as_slice(), ID_LENGTH)
}

} // verus!
