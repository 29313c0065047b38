//! The admission of a node as the delegator of a task.
//!
//! The ledger addresses a task to its delegator with a nonce: the event
//! carries the nonce encrypted for the delegator's RSA key, and the nonce's
//! SHA-256 digest. A node is the delegator if it can open the nonce and the
//! opened nonce has the announced digest.

use vstd::prelude::*;
use crate::text::{option_view, same_bytes};

verus! {

/// What a node made of the encrypted nonce with its own RSA private key: the
/// decrypted bytes and their SHA-256 digest.
#[derive(Debug, Clone, PartialEq)]
pub struct OpenedNonce {
    pub nonce: Vec<u8>,
    pub digest: Vec<u8>,
}

/// What an [`OpenedNonce`] holds, as plain values.
pub struct OpenedNonceView {
    pub nonce: Seq<u8>,
    pub digest: Seq<u8>,
}

impl View for OpenedNonce {
    type V = OpenedNonceView;

    open spec fn view(&self) -> OpenedNonceView {
        OpenedNonceView { nonce: self.nonce@, digest: self.digest@ }
    }
}

/// The nonce with which a node is admitted as delegator, if it is admitted:
/// it opened the nonce, and the digest of what it opened is the announced
/// one.
pub open spec fn spec_admitted(opened: Option<OpenedNonceView>, nonce_hash: Seq<u8>) -> Option<
    Seq<u8>,
> {
    match opened {
        Some(o) => if o.digest == nonce_hash {
            Some(o.nonce)
        } else {
            None
        },
        None => None,
    }
}

/// Decides whether this node is the delegator of an announced task.
/// `opened` is `None` where the node has no delegator key or could not
/// decrypt the nonce with it; `nonce_hash` is the digest that the ledger
/// announced. A node that is admitted gets the nonce; any other node gets
/// nothing, and is to drop the event silently.
pub fn try_to_be_delegator(opened: Option<OpenedNonce>, nonce_hash: &Vec<u8>) -> (nonce: Option<
    Vec<u8>,
>)
    ensures
        option_view(nonce) == spec_admitted(option_view(opened), nonce_hash@),
{
    match opened {
        Some(o) => {
            if same_bytes(&o.digest, nonce_hash) {
                Some(o.nonce)
            } else {
                None
            }
        },
        None => None,
    }
}

} // verus!
