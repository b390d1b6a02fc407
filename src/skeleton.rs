//! The unfunded transaction: the mint instruction first, the destination second.

use bitcoin::ScriptBuf;
use vstd::prelude::*;

verus! {

/// Largest instruction script that a data-carrying output may hold.
pub const MAX_INSTRUCTION_SIZE: usize = 82;

/// Largest script that consensus accepts.
pub const MAX_SCRIPT_SIZE: usize = 10000;

/// Value of the destination output when the request names none, in satoshis.
pub const TARGET_POSTAGE: u64 = 10000;

/// One output: a script and the value it locks, in satoshis.
#[derive(Debug)]
pub struct TxOutput {
    pub script: Vec<u8>,
    pub value: u64,
}

/// A transaction without inputs, to be funded and signed elsewhere.
#[derive(Debug)]
pub struct Skeleton {
    pub version: i32,
    pub lock_time: u32,
    pub outputs: Vec<TxOutput>,
}

/// Why no skeleton can be built.
#[derive(Clone, Copy, Debug, PartialEq, Eq, Structural)]
pub enum BuildError {
    /// The postage does not exceed `dust`, the dust threshold of the destination.
    BelowDustLimit { dust: u64 },
    /// The instruction script holds `size` bytes, more than a data-carrying output may.
    PayloadTooLarge { size: usize },
}

/// The dust threshold that the bitcoin library computes for an output script, in satoshis.
pub uninterp spec fn dust_threshold(script: Seq<u8>) -> u64;

/// Relies on bitcoin::Script::dust_value: the smallest value that relay policy lets an
/// output with this script hold. It panics only on scripts far beyond consensus size.
#[verifier::external_body]
fn dust_value(script: &Vec<u8>) -> (r: u64)
    requires
        script@.len() <= MAX_SCRIPT_SIZE,
    ensures
        r == dust_threshold(script@),
{
    ScriptBuf::from_bytes(script.clone()).dust_value().to_sat()
}

impl Skeleton {
    /// Version 2, no lock time, and the two outputs in their fixed order.
    pub open spec fn is_mint_skeleton(&self, instruction: Seq<u8>, destination: Seq<u8>, postage: u64) -> bool {
        &&& self.version == 2
        &&& self.lock_time == 0
        &&& self.outputs@.len() == 2
        &&& self.outputs@[0].script@ == instruction
        &&& self.outputs@[0].value == 0
        &&& self.outputs@[1].script@ == destination
        &&& self.outputs@[1].value == postage
    }
}

/// The outcome of building: the dust check comes first, then the size of the instruction.
pub open spec fn build_outcome(instruction: Seq<u8>, destination: Seq<u8>, postage: u64) -> Result<(), BuildError> {
    if postage <= dust_threshold(destination) {
        Err(BuildError::BelowDustLimit { dust: dust_threshold(destination) })
    } else if instruction.len() > MAX_INSTRUCTION_SIZE {
        Err(BuildError::PayloadTooLarge { size: instruction.len() as usize })
    } else {
        Ok(())
    }
}

/// Builds the unfunded transaction that carries `instruction` and sends `postage` to
/// `destination`.
pub fn build_skeleton(instruction: Vec<u8>, destination: Vec<u8>, postage: u64) -> (r: Result<Skeleton, BuildError>)
    requires
        destination@.len() <= MAX_SCRIPT_SIZE,
    ensures
        build_outcome(instruction@, destination@, postage) is Ok ==> r is Ok
            && r->Ok_0.is_mint_skeleton(instruction@, destination@, postage),
        build_outcome(instruction@, destination@, postage) is Err ==> r is Err
            && r->Err_0 == build_outcome(instruction@, destination@, postage)->Err_0,
{
    let dust = dust_value(&destination);
    if postage <= dust {
        return Err(BuildError::BelowDustLimit { dust });
    }
    if instruction.len() > MAX_INSTRUCTION_SIZE {
        return Err(BuildError::PayloadTooLarge { size: instruction.len() });
    }
    let mut outputs: Vec<TxOutput> = Vec::new();
    outputs.push(TxOutput { script: instruction, value: 0 });
    outputs.push(TxOutput { script: destination, value: postage });
    Ok(Skeleton { version: 2, lock_time: 0, outputs })
}

/// A postage at the destination's dust threshold is refused as dust, and one satoshi more
/// is accepted, for every destination and every instruction of admissible size.
pub proof fn lemma_dust_boundary(instruction: Seq<u8>, destination: Seq<u8>)
    requires
        instruction.len() <= MAX_INSTRUCTION_SIZE,
    ensures
        build_outcome(instruction, destination, dust_threshold(destination)) == Err::<(), BuildError>(
            BuildError::BelowDustLimit { dust: dust_threshold(destination) },
        ),
        dust_threshold(destination) < u64::MAX ==> build_outcome(
            instruction,
            destination,
            (dust_threshold(destination) + 1) as u64,
        ) is Ok,
{
}

} // verus!
