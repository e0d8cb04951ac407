use vstd::prelude::*;
use vstd::string::StringExecFns;

verus! {

/// Lifecycle state of a job run on the service.
#[derive(Debug, Clone, Copy, PartialEq, Eq, Structural)]
pub enum Status {
    Starting,
    Processing,
    Succeeded,
    Failed,
    Canceled,
}

impl Status {
    /// A terminal status admits no further transition.
    pub open spec fn spec_is_terminated(self) -> bool {
        self is Succeeded || self is Failed || self is Canceled
    }

    pub fn is_terminated(&self) -> (r: bool)
        ensures
            r == self.spec_is_terminated(),
    {
        match self {
            Status::Succeeded | Status::Failed | Status::Canceled => true,
            _ => false,
        }
    }

    /// The name the service uses for the status.
    pub open spec fn spec_name(self) -> Seq<char> {
        match self {
            Status::Starting => "starting"@,
            Status::Processing => "processing"@,
            Status::Succeeded => "succeeded"@,
            Status::Failed => "failed"@,
            Status::Canceled => "canceled"@,
        }
    }

    pub fn to_string(&self) -> (r: String)
        ensures
            r@ == self.spec_name(),
    {
        match self {
            Status::Starting => String::from_str("starting"),
            Status::Processing => String::from_str("processing"),
            Status::Succeeded => String::from_str("succeeded"),
            Status::Failed => String::from_str("failed"),
            Status::Canceled => String::from_str("canceled"),
        }
    }
}

} // verus!
