//! The per-attempt secrets of an authorization, carried by the caller as an
//! opaque text token so that the server keeps nothing between the two steps.
//!
//! A token is the hexadecimal form of the CSRF token's UTF-8 bytes, a `.`,
//! and the hexadecimal form of the PKCE verifier's UTF-8 bytes.

use crate::error::Error;
use crate::hex_text::{
    ascii_bytes, hex_chars, hex_decode, hex_decoded, hex_encode, lemma_hex_chars_plain,
    lemma_hex_round_trip,
};
use vstd::prelude::*;
use vstd::slice::slice_subrange;
use vstd::string::*;
use vstd::utf8::*;

verus! {

/// The byte that parts the two halves of a token (`.`).
pub const SEPARATOR: u8 = 0x2e;

/// `i` is the first place in `b` where the separator stands.
pub open spec fn separator_at(b: Seq<u8>, i: int) -> bool {
    &&& 0 <= i < b.len()
    &&& b[i] == SEPARATOR
    &&& forall|j: int| 0 <= j < i ==> b[j] != SEPARATOR
}

/// The token for a CSRF token and a PKCE verifier.
pub open spec fn flow_token(csrf: Seq<char>, verifier: Seq<char>) -> Seq<char> {
    hex_chars(encode_utf8(csrf)) + seq!['.'] + hex_chars(encode_utf8(verifier))
}

/// The text that the UTF-8 bytes `b` stand for, if they are valid UTF-8.
pub open spec fn utf8_text(b: Seq<u8>) -> Option<Seq<char>> {
    if valid_utf8(b) {
        Some(decode_utf8(b))
    } else {
        None
    }
}

/// What a token (as UTF-8 bytes) decodes to: split at the first separator,
/// both halves hexadecimal, both decoded halves valid UTF-8.
pub open spec fn decoded_flow_bytes(b: Seq<u8>) -> Option<(Seq<char>, Seq<char>)> {
    if exists|i: int| separator_at(b, i) {
        let i = choose|i: int| separator_at(b, i);
        match (hex_decoded(b.subrange(0, i)), hex_decoded(b.subrange(i + 1, b.len() as int))) {
            (Some(c), Some(v)) => match (utf8_text(c), utf8_text(v)) {
                (Some(cs), Some(vs)) => Some((cs, vs)),
                _ => None,
            },
            _ => None,
        }
    } else {
        None
    }
}

/// What a token decodes to: `(csrf_token, pkce_verifier)`, or `None`.
pub open spec fn decoded_flow_token(t: Seq<char>) -> Option<(Seq<char>, Seq<char>)> {
    decoded_flow_bytes(encode_utf8(t))
}

/// Relies on `String::from_utf8`: it accepts exactly the valid UTF-8 byte
/// sequences and returns the text that they encode.
#[verifier::external_body]
fn string_from_utf8(bytes: Vec<u8>) -> (r: Option<String>)
    ensures
        match r {
            Some(s) => utf8_text(bytes@) == Some(s@),
            None => utf8_text(bytes@) is None,
        },
{
    String::from_utf8(bytes).ok()
}

/// The secrets of one authorization attempt.
pub struct Oauth2FlowState {
    /// Sent to the provider as `state`; must come back unchanged.
    pub csrf_token: String,
    /// The PKCE verifier whose challenge went to the provider.
    pub pkce_verifier: String,
}

impl Oauth2FlowState {
    /// The opaque token that carries this state.
    pub fn encode(&self) -> (r: String)
        ensures
            r@ == flow_token(self.csrf_token@, self.pkce_verifier@),
    {
        let mut out = hex_encode(self.csrf_token.as_str().as_bytes());
        let verifier = hex_encode(self.pkce_verifier.as_str().as_bytes());
        out.append(".");
        out.append(verifier.as_str());
        proof {
            reveal_strlit(".");
        }
        out
    }

    /// Reads a token back; fails with `MalformedFlowState` on anything that
    /// is not a token.
    pub fn decode(token: &str) -> (r: Result<Oauth2FlowState, Error>)
        ensures
            match r {
                Ok(s) => decoded_flow_token(token@) == Some((s.csrf_token@, s.pkce_verifier@)),
                Err(e) => decoded_flow_token(token@) is None && e is MalformedFlowState,
            },
    {
        let b = token.as_bytes();
        let mut i: usize = 0;
        while i < b.len() && b[i] != SEPARATOR
            invariant
                0 <= i <= b@.len(),
                forall|j: int| 0 <= j < i ==> b@[j] != SEPARATOR,
            decreases b@.len() - i,
        {
            i = i + 1;
        }
        if i == b.len() {
            return Err(Error::MalformedFlowState);
        }
        proof {
            assert(separator_at(b@, i as int));
            assert forall|k: int| separator_at(b@, k) implies k == i by {
                if k < i {
                } else if k > i {
                    assert(b@[i as int] != SEPARATOR);
                }
            }
        }
        let csrf_bytes = match hex_decode(slice_subrange(b, 0, i)) {
            Ok(v) => v,
            Err(_) => return Err(Error::MalformedFlowState),
        };
        let verifier_bytes = match hex_decode(slice_subrange(b, i + 1, b.len())) {
            Ok(v) => v,
            Err(_) => return Err(Error::MalformedFlowState),
        };
        let csrf_token = match string_from_utf8(csrf_bytes) {
            Some(s) => s,
            None => return Err(Error::MalformedFlowState),
        };
        let pkce_verifier = match string_from_utf8(verifier_bytes) {
            Some(s) => s,
            None => return Err(Error::MalformedFlowState),
        };
        Ok(Oauth2FlowState { csrf_token, pkce_verifier })
    }
}

/// Decoding the token of a flow state gives that flow state back.
pub proof fn lemma_flow_token_round_trip(csrf: Seq<char>, verifier: Seq<char>)
    ensures
        decoded_flow_token(flow_token(csrf, verifier)) == Some((csrf, verifier)),
{
    let cb = encode_utf8(csrf);
    let vb = encode_utf8(verifier);
    let hc = hex_chars(cb);
    let hv = hex_chars(vb);
    let t = flow_token(csrf, verifier);
    lemma_hex_chars_plain(cb);
    lemma_hex_chars_plain(vb);
    assert(is_ascii_chars(t)) by {
        assert forall|k: int| 0 <= k < t.len() implies '\0' <= #[trigger] t[k] <= '\u{7f}' by {
            if k < hc.len() {
                assert(t[k] == hc[k]);
            } else if k > hc.len() {
                assert(t[k] == hv[k - hc.len() - 1]);
            }
        }
    }
    is_ascii_chars_encode_utf8(t);
    let b = encode_utf8(t);
    assert(b =~= ascii_bytes(t));
    let i = hc.len() as int;
    assert(separator_at(b, i)) by {
        assert(t[i] == '.');
        assert forall|j: int| 0 <= j < i implies b[j] != SEPARATOR by {
            assert(t[j] == hc[j]);
        }
    }
    assert forall|k: int| separator_at(b, k) implies k == i by {
        if k > i {
            assert(b[i] == SEPARATOR);
        } else if k < i {
            assert(t[k] == hc[k]);
        }
    }
    assert(b.subrange(0, i) =~= ascii_bytes(hc));
    assert(b.subrange(i + 1, b.len() as int) =~= ascii_bytes(hv));
    lemma_hex_round_trip(cb);
    lemma_hex_round_trip(vb);
    encode_utf8_valid_utf8(csrf);
    encode_utf8_valid_utf8(verifier);
    encode_utf8_decode_utf8(csrf);
    encode_utf8_decode_utf8(verifier);
}

} // verus!
