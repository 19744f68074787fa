use vstd::prelude::*;
use crate::error::ValidationError;

verus! {

/// What has become of a product.
#[derive(Clone, Copy, Debug, PartialEq, Eq, Structural)]
pub enum Status {
    Active,
    Idle,
    Broken,
    Sold,
}

impl Status {
    /// The Cantonese label of a status.
    pub open spec fn label(self) -> Seq<char> {
        match self {
            Status::Active => "用緊"@,
            Status::Idle => "食塵"@,
            Status::Broken => "壞咗"@,
            Status::Sold => "賣咗"@,
        }
    }

    /// The status that a code stands for: 0 to 3, in the order of the variants.
    pub open spec fn of_code(id: u32) -> Option<Status> {
        if id == 0 {
            Some(Status::Active)
        } else if id == 1 {
            Some(Status::Idle)
        } else if id == 2 {
            Some(Status::Broken)
        } else if id == 3 {
            Some(Status::Sold)
        } else {
            None
        }
    }

    pub fn to_cantonees(&self) -> (r: &str)
        ensures
            r@ == self.label(),
    {
        match self {
            Status::Active => "用緊",
            Status::Idle => "食塵",
            Status::Broken => "壞咗",
            Status::Sold => "賣咗",
        }
    }

    pub fn from_u32(id: u32) -> (r: Result<Status, ValidationError>)
        ensures
            r == match Status::of_code(id) {
                Some(s) => Ok::<Status, ValidationError>(s),
                None => Err::<Status, ValidationError>(ValidationError::InvalidStatus(id)),
            },
    {
        match id {
            0 => Ok(Status::Active),
            1 => Ok(Status::Idle),
            2 => Ok(Status::Broken),
            3 => Ok(Status::Sold),
            _ => Err(ValidationError::InvalidStatus(id)),
        }
    }
}

} // verus!
