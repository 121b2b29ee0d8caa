use vstd::prelude::*;

verus! {

/// A data model passed to or received from the (out-of-scope) transport
/// methods.  Serialization lives with the surroundings of this library,
/// which mirror this type with the encoding machinery attached.
#[derive(Clone, Debug)]
pub struct Model {
    pub name: String,
    pub value: String,
}

} // verus!
