//! What a successful verification produces.

use vstd::prelude::*;

verus! {

/// The value of a verification result.
pub struct VerifiedResultView {
    pub program_id: Seq<char>,
    pub is_verified: bool,
    pub on_chain_hash: Seq<char>,
    pub executable_hash: Seq<char>,
}

/// The verdict on one program, with the hashes it rests on.
#[derive(Debug, PartialEq, Eq)]
pub struct VerifiedResult {
    /// The on-chain program the verdict is about.
    pub program_id: String,
    /// Whether the build matches what is deployed.
    pub is_verified: bool,
    /// The hash of the deployed program.
    pub on_chain_hash: String,
    /// The hash of the executable that the build produced.
    pub executable_hash: String,
}

impl View for VerifiedResult {
    type V = VerifiedResultView;

    open spec fn view(&self) -> VerifiedResultView {
        VerifiedResultView {
            program_id: self.program_id@,
            is_verified: self.is_verified,
            on_chain_hash: self.on_chain_hash@,
            executable_hash: self.executable_hash@,
        }
    }
}

impl DeepView for VerifiedResult {
    type V = VerifiedResultView;

    open spec fn deep_view(&self) -> VerifiedResultView {
        self@
    }
}

impl Clone for VerifiedResult {
    fn clone(&self) -> (copy: Self)
        ensures
            copy@ == self@,
    {
        VerifiedResult {
            program_id: self.program_id.clone(),
            is_verified: self.is_verified,
            on_chain_hash: self.on_chain_hash.clone(),
            executable_hash: self.executable_hash.clone(),
        }
    }
}

} // verus!
