//! Transactions as the wallet handles them: a message that names a recent
//! block, and the signatures attached to it.

use vstd::prelude::*;

verus! {

/// The number of bytes of a block hash and of a signing digest.
pub const HASH_BYTES: usize = 32;

/// The number of bytes of a signature.
pub const SIGNATURE_BYTES: usize = 64;

/// The bytes of `bytes` as an array of 32, or `None` when there are not
/// exactly 32 of them.
pub fn to_hash_bytes(bytes: &[u8]) -> (r: Option<[u8; 32]>)
    ensures
        r is Some <==> bytes@.len() == HASH_BYTES,
        r matches Some(a) ==> a@ == bytes@,
{
    if bytes.len() != HASH_BYTES {
        return None;
    }
    let mut a = [0u8; 32];
    let mut i: usize = 0;
    while i < HASH_BYTES
        invariant
            i <= HASH_BYTES,
            bytes@.len() == HASH_BYTES,
            forall|j: int| 0 <= j < i ==> a@[j] == bytes@[j],
        decreases HASH_BYTES - i,
    {
        a[i] = bytes[i];
        i += 1;
    }
    assert(a@ =~= bytes@);
    Some(a)
}

/// The bytes of the empty block hash: 32 zeros.
pub open spec fn empty_hash() -> Seq<u8> {
    Seq::new(HASH_BYTES as nat, |i: int| 0u8)
}

/// The hash of a block, by which a transaction names a recent point of the
/// ledger.
#[derive(Clone, Copy, Debug, PartialEq, Eq)]
pub struct BlockHash {
    pub bytes: [u8; 32],
}

impl View for BlockHash {
    type V = Seq<u8>;

    open spec fn view(&self) -> Seq<u8> {
        self.bytes@
    }
}

impl BlockHash {
    /// Whether this is the empty block hash: a transaction that carries it
    /// has not been given a recent block yet.
    pub fn is_default(&self) -> (r: bool)
        ensures
            r == (self@ == empty_hash()),
    {
        let mut i: usize = 0;
        while i < HASH_BYTES
            invariant
                i <= HASH_BYTES,
                forall|j: int| 0 <= j < i ==> self.bytes@[j] == 0,
            decreases HASH_BYTES - i,
        {
            if self.bytes[i] != 0 {
                assert(self@[i as int] != empty_hash()[i as int]);
                return false;
            }
            i += 1;
        }
        assert(self@ =~= empty_hash());
        true
    }
}

impl Default for BlockHash {
    fn default() -> (r: BlockHash)
        ensures
            r@ == empty_hash(),
    {
        let r = BlockHash { bytes: [0u8; 32] };
        assert(r@ =~= empty_hash());
        r
    }
}

/// A signature over the digest of a message.
#[derive(Clone, Copy, Debug, PartialEq, Eq)]
pub struct Signature {
    pub bytes: [u8; 64],
}

impl View for Signature {
    type V = Seq<u8>;

    open spec fn view(&self) -> Seq<u8> {
        self.bytes@
    }
}

impl Signature {
    /// The signature made of `bytes`, or `None` when there are not exactly
    /// [`SIGNATURE_BYTES`] of them.
    pub fn try_from_slice(bytes: &[u8]) -> (r: Option<Signature>)
        ensures
            r is Some <==> bytes@.len() == SIGNATURE_BYTES,
            r matches Some(s) ==> s@ == bytes@,
    {
        if bytes.len() != SIGNATURE_BYTES {
            return None;
        }
        let mut a = [0u8; 64];
        let mut i: usize = 0;
        while i < SIGNATURE_BYTES
            invariant
                i <= SIGNATURE_BYTES,
                bytes@.len() == SIGNATURE_BYTES,
                forall|j: int| 0 <= j < i ==> a@[j] == bytes@[j],
            decreases SIGNATURE_BYTES - i,
        {
            a[i] = bytes[i];
            i += 1;
        }
        assert(a@ =~= bytes@);
        Some(Signature { bytes: a })
    }
}

/// The part of a transaction that is signed: the block it refers to, and
/// the rest of its content, which the wallet carries along untouched.
#[derive(Debug, PartialEq, Eq)]
pub struct Message {
    pub recent_blockhash: BlockHash,
    pub body: Vec<u8>,
}

/// The mathematical value of a [`Message`].
pub struct MessageView {
    pub recent_blockhash: Seq<u8>,
    pub body: Seq<u8>,
}

impl View for Message {
    type V = MessageView;

    open spec fn view(&self) -> MessageView {
        MessageView { recent_blockhash: self.recent_blockhash@, body: self.body@ }
    }
}

impl Clone for Message {
    fn clone(&self) -> (r: Self)
        ensures
            r@ == self@,
    {
        Message { recent_blockhash: self.recent_blockhash, body: self.body.clone() }
    }
}

/// A message with the signatures attached to it so far.
#[derive(Debug, PartialEq, Eq)]
pub struct Transaction {
    pub signatures: Vec<Signature>,
    pub message: Message,
}

/// The mathematical value of a [`Transaction`].
pub struct TransactionView {
    pub signatures: Seq<Seq<u8>>,
    pub message: MessageView,
}

impl View for Transaction {
    type V = TransactionView;

    open spec fn view(&self) -> TransactionView {
        TransactionView {
            signatures: Seq::new(self.signatures@.len(), |i: int| self.signatures@[i]@),
            message: self.message@,
        }
    }
}

impl Clone for Transaction {
    fn clone(&self) -> (r: Self)
        ensures
            r@ == self@,
    {
        let r = Transaction { signatures: self.signatures.clone(), message: self.message.clone() };
        assert(r@.signatures =~= self@.signatures);
        r
    }
}

impl TransactionView {
    /// This transaction with `hash` as the block it refers to.
    pub open spec fn with_blockhash(self, hash: Seq<u8>) -> TransactionView {
        TransactionView {
            signatures: self.signatures,
            message: MessageView { recent_blockhash: hash, body: self.message.body },
        }
    }

    /// This transaction with `signature` in the first slot: it takes the
    /// place of the signature that was there, or becomes the only one.
    pub open spec fn with_signature(self, signature: Seq<u8>) -> TransactionView {
        TransactionView {
            signatures: if self.signatures.len() == 0 {
                seq![signature]
            } else {
                self.signatures.update(0, signature)
            },
            message: self.message,
        }
    }
}

impl Transaction {
    /// Makes `hash` the block this transaction refers to.
    pub fn set_recent_blockhash(&mut self, hash: BlockHash)
        ensures
            final(self)@ == old(self)@.with_blockhash(hash@),
    {
        self.message.recent_blockhash = hash;
    }

    /// Puts `signature` into the first slot of the signature list.
    pub fn add_signature(&mut self, signature: Signature)
        ensures
            final(self)@ == old(self)@.with_signature(signature@),
    {
        if self.signatures.len() == 0 {
            self.signatures.push(signature);
        } else {
            self.signatures.set(0, signature);
        }
        assert(self@.signatures =~= old(self)@.with_signature(signature@).signatures);
    }
}

} // verus!
