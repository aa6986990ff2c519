//! The record shape, its canonical byte encoding, and sign/verify over it.

use vstd::prelude::*;
use vstd::utf8::encode_utf8;
use vstd::string::StrSliceExecFns;

use crate::ed25519::{
    PublicKey, Signature, SigningKey, ed25519_accepts, ed25519_public_key, ed25519_signature,
};

verus! {

/// The mathematical content of a record: its two fields as character
/// sequences.
pub struct TransactionView {
    pub input: Seq<char>,
    pub output: Seq<char>,
}

/// The canonical byte encoding of a record: the UTF-8 bytes of `input`
/// immediately followed by the UTF-8 bytes of `output`, with no delimiter,
/// length prefix or field marker. Distinct field splits of one character
/// sequence therefore encode alike; `lemma_encoding_ambiguity` states this
/// known weakness, which is kept for compatibility.
pub open spec fn encoding(t: TransactionView) -> Seq<u8> {
    encode_utf8(t.input) + encode_utf8(t.output)
}

/// A ledger record: two opaque text fields, immutable once constructed.
/// Empty fields are legal, and no character set is excluded.
#[derive(Debug)]
pub struct Transaction {
    input: String,
    output: String,
}

impl View for Transaction {
    type V = TransactionView;

    closed spec fn view(&self) -> TransactionView {
        TransactionView { input: self.input@, output: self.output@ }
    }
}

impl Transaction {
    /// Build a record from its two fields.
    pub fn new(input: String, output: String) -> (t: Transaction)
        ensures
            t@.input == input@,
            t@.output == output@,
    {
        Transaction { input, output }
    }

    /// The first field.
    pub fn input(&self) -> (r: &str)
        ensures
            r@ == self@.input,
    {
        self.input.as_str()
    }

    /// The second field.
    pub fn output(&self) -> (r: &str)
        ensures
            r@ == self@.output,
    {
        self.output.as_str()
    }

    /// The canonical bytes that are signed and verified: a pure function of
    /// the two fields, empty exactly when both fields are empty.
    pub fn encode(&self) -> (r: Vec<u8>)
        ensures
            r@ == encoding(self@),
    {
        let mut r = self.input.as_str().as_bytes_vec();
        let mut tail = self.output.as_str().as_bytes_vec();
        r.append(&mut tail);
        r
    }
}

impl Default for Transaction {
    /// The record with both fields empty.
    fn default() -> (t: Transaction)
        ensures
            t@.input == Seq::<char>::empty(),
            t@.output == Seq::<char>::empty(),
    {
        Transaction { input: String::new(), output: String::new() }
    }
}

/// Produce the Ed25519 signature of a record's canonical encoding.
///
/// Signing is deterministic: the signature bytes are a function of the key
/// pair and the record's fields alone, so equal inputs always yield equal
/// signatures. The result verifies under the pair's own public key, and
/// signing never fails, whatever the fields hold.
pub fn sign(t: &Transaction, key: &SigningKey) -> (s: Signature)
    ensures
        s@ == ed25519_signature(key@, encoding(t@)),
        s@.len() == 64,
        ed25519_accepts(ed25519_public_key(key@), encoding(t@), s@),
{
    let bytes = t.encode();
    key.sign_bytes(bytes.as_slice())
}

/// Recompute the record's canonical encoding and test `signature` against it
/// under `public_key`.
///
/// Returns `true` exactly when Ed25519 verification accepts the signature
/// over those bytes; a wrong key, tampered fields or corrupt signature bytes
/// all give `false`, never an error.
pub fn verify(t: &Transaction, public_key: &PublicKey, signature: &Signature) -> (r: bool)
    ensures
        r == ed25519_accepts(public_key@, encoding(t@), signature@),
{
    let bytes = t.encode();
    public_key.verify_bytes(bytes.as_slice(), signature)
}

/// UTF-8 encoding distributes over concatenation of character sequences.
proof fn lemma_encode_utf8_concat(x: Seq<char>, y: Seq<char>)
    ensures
        encode_utf8(x + y) == encode_utf8(x) + encode_utf8(y),
    decreases x.len(),
{
    if x.len() == 0 {
        assert(x + y =~= y);
        assert(encode_utf8(x) + encode_utf8(y) =~= encode_utf8(y));
    } else {
        assert((x + y).drop_first() =~= x.drop_first() + y);
        lemma_encode_utf8_concat(x.drop_first(), y);
        assert(encode_utf8(x + y) =~= encode_utf8(x) + encode_utf8(y));
    }
}

/// A record with both fields empty encodes to the empty byte sequence.
pub proof fn lemma_empty_encoding(t: TransactionView)
    requires
        t.input.len() == 0,
        t.output.len() == 0,
    ensures
        encoding(t) == Seq::<u8>::empty(),
{
    assert(encoding(t) =~= Seq::<u8>::empty());
}

/// The known weakness of the delimiter-free encoding: two records whose
/// concatenated fields form one and the same character sequence share one
/// canonical encoding — and with it every signature and every verification
/// outcome — however the sequence is split between the fields.
pub proof fn lemma_encoding_ambiguity(a: TransactionView, b: TransactionView)
    requires
        a.input + a.output == b.input + b.output,
    ensures
        encoding(a) == encoding(b),
{
    lemma_encode_utf8_concat(a.input, a.output);
    lemma_encode_utf8_concat(b.input, b.output);
}

/// The container pairing a record's encoded form with a signature, as handed
/// to storage or transport by a caller. This crate fixes no byte layout for
/// it; the calling system chooses one.
pub struct SignedTransaction<'a> {
    transaction: &'a str,
    signature: &'a str,
}

impl<'a> SignedTransaction<'a> {
    /// The record text carried by the envelope.
    pub closed spec fn transaction_text(self) -> Seq<char> {
        self.transaction@
    }

    /// The signature text carried by the envelope.
    pub closed spec fn signature_text(self) -> Seq<char> {
        self.signature@
    }

    /// Pair a record's textual form with a signature's textual form.
    pub fn new(transaction: &'a str, signature: &'a str) -> (s: SignedTransaction<'a>)
        ensures
            s.transaction_text() == transaction@,
            s.signature_text() == signature@,
    {
        SignedTransaction { transaction, signature }
    }

    /// The record text.
    pub fn transaction(&self) -> (r: &'a str)
        ensures
            r@ == self.transaction_text(),
    {
        self.transaction
    }

    /// The signature text.
    pub fn signature(&self) -> (r: &'a str)
        ensures
            r@ == self.signature_text(),
    {
        self.signature
    }
}

} // verus!
