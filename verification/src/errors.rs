use vstd::prelude::*;

verus! {

/// The conditions on which a decode aborts.  The first failure ends the
/// whole decode; no partial font is ever returned.
#[derive(Clone, Copy, Debug, PartialEq, Eq, Structural)]
pub enum GfError {
    /// The header's identification byte is not the fixed GF identifier.
    InvalidGfId,
    /// A numeric-parameter opcode arrived with no annotation to attach to.
    YyyWithoutXxx,
    /// A reserved or undefined opcode was encountered.
    InvalidOpCode,
    /// The byte stream ended before an operand could be read in full.
    UnexpectedEof,
}

} // verus!
