use vstd::prelude::*;

verus! {

/// The operation a change-data-capture event records: `r` a snapshot read,
/// `c` a create, `u` an update, `d` a delete.
#[derive(Debug, Clone, Copy, PartialEq, Eq, Structural)]
pub enum CdcOperation {
    Read,
    Create,
    Update,
    Delete,
}

/// The one-letter code of an operation.
pub open spec fn operation_code(op: CdcOperation) -> Seq<char> {
    match op {
        CdcOperation::Read => "r"@,
        CdcOperation::Create => "c"@,
        CdcOperation::Update => "u"@,
        CdcOperation::Delete => "d"@,
    }
}

impl CdcOperation {
    /// The operation's one-letter code.
    pub fn to_string(&self) -> (code: String)
        ensures
            code@ == operation_code(*self),
    {
        match self {
            CdcOperation::Read => String::from_str("r"),
            CdcOperation::Create => String::from_str("c"),
            CdcOperation::Update => String::from_str("u"),
            CdcOperation::Delete => String::from_str("d"),
        }
    }
}

/// A change-data-capture event: the operation and the row before and after it.
#[derive(Debug, Clone)]
pub struct CdcPayload<T> {
    pub op: CdcOperation,
    pub before: Option<T>,
    pub after: Option<T>,
}

} // verus!
