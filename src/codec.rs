//! The mint instruction: a runestone that names the rune to mint and sets nothing else.

use bitcoin::absolute::LockTime;
use bitcoin::transaction::Version;
use bitcoin::{Amount, ScriptBuf, Transaction, TxOut};
use ordinals::{Artifact, RuneId, Runestone};
use vstd::prelude::*;

verus! {

/// Identifier of a rune: the height of the block that etched it and the index of the
/// etching transaction in that block.
#[derive(Clone, Copy, Debug, PartialEq, Eq, Structural)]
pub struct TokenId {
    pub block: u64,
    pub tx: u32,
}

/// What a runestone decoder finds in a transaction's outputs, reduced to what the mint
/// check reads.
#[derive(Clone, Copy, Debug, PartialEq, Eq, Structural)]
pub enum Deciphered {
    /// A well-formed runestone.
    Runestone {
        /// The rune it mints.
        mint: Option<TokenId>,
        /// Number of transfers it makes.
        edicts: usize,
        /// Whether it etches a new rune.
        etching: bool,
        /// Output that receives unallocated runes.
        pointer: Option<u32>,
    },
    /// A malformed runestone, which burns the runes of the transaction.
    Cenotaph,
}

/// The output script that ordinals' encoder writes for a runestone that mints
/// `block:tx` and sets nothing else.
pub uninterp spec fn mint_script(block: u64, tx: u32) -> Seq<u8>;

/// What ordinals' decoder finds in a transaction with these output scripts.
pub uninterp spec fn deciphered(outputs: Seq<Seq<u8>>) -> Option<Deciphered>;

/// The decoder found a runestone that mints `id` and sets nothing else.
pub open spec fn is_mint_of(d: Option<Deciphered>, id: TokenId) -> bool {
    d == Some(Deciphered::Runestone { mint: Some(id), edicts: 0, etching: false, pointer: None })
}

/// Relies on ordinals::Runestone::encipher, on a runestone whose only field is the mint.
#[verifier::external_body]
fn encipher_mint(id: TokenId) -> (r: Vec<u8>)
    ensures
        r@ == mint_script(id.block, id.tx),
{
    let runestone = Runestone { mint: Some(RuneId { block: id.block, tx: id.tx }), ..Default::default() };
    runestone.encipher().into_bytes()
}

/// Relies on ordinals::Runestone::decipher, which reads no more of a transaction than
/// its output scripts and their number.
#[verifier::external_body]
fn decipher(outputs: &Vec<Vec<u8>>) -> (r: Option<Deciphered>)
    ensures
        r == deciphered(outputs.deep_view()),
{
    let output = outputs.iter().map(|s| TxOut { value: Amount::ZERO, script_pubkey: ScriptBuf::from_bytes(s.clone()) }).collect();
    let tx = Transaction { version: Version::TWO, lock_time: LockTime::ZERO, input: Vec::new(), output };
    match Runestone::decipher(&tx)? {
        Artifact::Runestone(r) => Some(Deciphered::Runestone {
            mint: r.mint.map(|m| TokenId { block: m.block, tx: m.tx }),
            edicts: r.edicts.len(),
            etching: r.etching.is_some(),
            pointer: r.pointer,
        }),
        Artifact::Cenotaph(_) => Some(Deciphered::Cenotaph),
    }
}

/// The output script of the instruction that mints `id`.
pub fn encode(id: TokenId) -> (r: Vec<u8>)
    ensures
        r@ == mint_script(id.block, id.tx),
{
    encipher_mint(id)
}

/// Decodes the runestone carried by a transaction with these output scripts.
pub fn decode(outputs: &Vec<Vec<u8>>) -> (r: Option<Deciphered>)
    ensures
        r == deciphered(outputs.deep_view()),
{
    decipher(outputs)
}

/// Whether a decoded runestone is exactly the instruction that mints `id`.
pub fn deciphers_to(d: Option<Deciphered>, id: TokenId) -> (r: bool)
    ensures
        r == is_mint_of(d, id),
{
    match d {
        Some(Deciphered::Runestone { mint: Some(m), edicts, etching, pointer }) => {
            m.block == id.block && m.tx == id.tx && edicts == 0 && !etching && pointer.is_none()
        },
        _ => false,
    }
}

/// Whether a transaction with these output scripts carries exactly the instruction that
/// mints `id`.
pub fn carries_mint_of(outputs: &Vec<Vec<u8>>, id: TokenId) -> (r: bool)
    ensures
        r == is_mint_of(deciphered(outputs.deep_view()), id),
{
    deciphers_to(decode(outputs), id)
}

} // verus!
