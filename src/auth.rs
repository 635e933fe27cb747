use vstd::prelude::*;

use crate::errors::{PasteError, PasteErrorKind};

verus! {

/// The literal prefix of the authorization header: note the colon.
pub open spec fn bearer_prefix() -> Seq<char> {
    seq!['B', 'e', 'a', 'r', 'e', 'r', ':', ' ']
}

/// The header carries the bearer prefix.
pub open spec fn has_bearer_prefix(header: Seq<char>) -> bool {
    header.len() >= bearer_prefix().len() && header.subrange(0, bearer_prefix().len() as int)
        == bearer_prefix()
}

/// The header is the bearer prefix followed by exactly the secret.
pub open spec fn token_accepted(header: Seq<char>, secret: Seq<char>) -> bool {
    header == bearer_prefix() + secret
}

/// A header is accepted exactly when it starts with the bearer prefix and
/// what remains once the prefix is stripped equals the secret; so any other
/// prefix, and any other token, is refused.
pub proof fn lemma_accepted_iff_prefix_and_secret(header: Seq<char>, secret: Seq<char>)
    ensures
        token_accepted(header, secret) <==> (has_bearer_prefix(header) && header.subrange(
            bearer_prefix().len() as int,
            header.len() as int,
        ) == secret),
{
    let k = bearer_prefix().len() as int;
    if token_accepted(header, secret) {
        assert(header.subrange(0, k) =~= bearer_prefix());
        assert(header.subrange(k, header.len() as int) =~= secret);
    }
    if has_bearer_prefix(header) && header.subrange(k, header.len() as int) == secret {
        assert(header =~= header.subrange(0, k) + header.subrange(k, header.len() as int));
    }
}

/// Checks an `Authorization` header value against the configured secret.
pub fn check_bearer_token(auth_header: &str, secret: &str) -> (r: Result<(), PasteError>)
    ensures
        r is Ok <==> token_accepted(auth_header@, secret@),
        r is Err ==> r->Err_0.error_kind == PasteErrorKind::InvalidAuthorization,
{
    let prefix = "Bearer: ";
    proof {
        reveal_strlit("Bearer: ");
    }
    assert(prefix@ =~= bearer_prefix());
    let n = auth_header.unicode_len();
    let k = prefix.unicode_len();
    if n < k || auth_header.substring_char(0, k).to_owned() != prefix.to_owned() {
        assert(!token_accepted(auth_header@, secret@)) by {
            if token_accepted(auth_header@, secret@) {
                assert(auth_header@.subrange(0, k as int) =~= bearer_prefix());
            }
        }
        return Err(
            PasteError::new(
                PasteErrorKind::InvalidAuthorization,
                "Authorization header did not contain a bearer token",
            ),
        );
    }
    let raw_token = auth_header.substring_char(k, n).to_owned();
    assert(auth_header@ =~= auth_header@.subrange(0, k as int) + auth_header@.subrange(
        k as int,
        n as int,
    ));
    if raw_token == secret.to_owned() {
        Ok(())
    } else {
        assert(!token_accepted(auth_header@, secret@)) by {
            if token_accepted(auth_header@, secret@) {
                assert(auth_header@.subrange(k as int, n as int) =~= secret@);
            }
        }
        Err(
            PasteError::new(
                PasteErrorKind::InvalidAuthorization,
                "Authorization header contained an invalid bearer token",
            ),
        )
    }
}

} // verus!
