use vstd::prelude::*;

verus! {

/// The failures that a request to the ledger can end in. None of them leaves
/// a partial change behind.
#[derive(Clone, Copy, Debug, PartialEq, Eq, Structural)]
pub enum NeuralPathwayError {
    /// The request's opcode or payload is malformed.
    InvalidInstruction,
    /// The storage for a new record does not meet the ledger's minimum balance.
    NotRentExempt,
    /// The two agents are the same, or a referenced pathway does not exist.
    InvalidAgent,
    /// The pathway key, or a token's mint, is already taken.
    PathwayAlreadyExists,
}

impl NeuralPathwayError {
    /// The numeric code of the error, in declaration order from zero.
    pub open spec fn spec_code(self) -> u32 {
        match self {
            NeuralPathwayError::InvalidInstruction => 0,
            NeuralPathwayError::NotRentExempt => 1,
            NeuralPathwayError::InvalidAgent => 2,
            NeuralPathwayError::PathwayAlreadyExists => 3,
        }
    }

    /// The numeric code that the host ledger reports as a custom error.
    pub fn code(&self) -> (r: u32)
        ensures
            r == self.spec_code(),
    {
        match self {
            NeuralPathwayError::InvalidInstruction => 0,
            NeuralPathwayError::NotRentExempt => 1,
            NeuralPathwayError::InvalidAgent => 2,
            NeuralPathwayError::PathwayAlreadyExists => 3,
        }
    }

    /// The error's message.
    pub fn to_string(&self) -> (r: String)
        ensures
            r@ == self.spec_message(),
    {
        match self {
            NeuralPathwayError::InvalidInstruction => String::from_str("Invalid Instruction"),
            NeuralPathwayError::NotRentExempt => String::from_str("Not Rent Exempt"),
            NeuralPathwayError::InvalidAgent => String::from_str("Invalid Agent"),
            NeuralPathwayError::PathwayAlreadyExists => String::from_str("Pathway Already Exists"),
        }
    }

    pub open spec fn spec_message(self) -> Seq<char> {
        match self {
            NeuralPathwayError::InvalidInstruction => "Invalid Instruction"@,
            NeuralPathwayError::NotRentExempt => "Not Rent Exempt"@,
            NeuralPathwayError::InvalidAgent => "Invalid Agent"@,
            NeuralPathwayError::PathwayAlreadyExists => "Pathway Already Exists"@,
        }
    }
}

} // verus!
