use vstd::prelude::*;

verus! {

/// Where the overlay shows its notifications
#[derive(Debug, Clone, Copy, PartialEq, Eq, Structural)]
pub enum NotificationPosition {
    TopLeft,
    TopRight,
    BottomLeft,
    BottomRight,
}

impl NotificationPosition {
    /// The `ENotificationPosition` code of the value.
    pub open spec fn spec_code(self) -> i32 {
        match self {
            NotificationPosition::TopLeft => 0,
            NotificationPosition::TopRight => 1,
            NotificationPosition::BottomLeft => 2,
            NotificationPosition::BottomRight => 3,
        }
    }

    /// The `ENotificationPosition` code of the value.
    pub fn code(&self) -> (r: i32)
        ensures
            r == self.spec_code(),
    {
        match self {
            NotificationPosition::TopLeft => 0,
            NotificationPosition::TopRight => 1,
            NotificationPosition::BottomLeft => 2,
            NotificationPosition::BottomRight => 3,
        }
    }
}

/// The values of `NotificationPosition::spec_code`, as the Steamworks SDK headers fix them.
pub proof fn lemma_notification_position_code_table()
    ensures
        NotificationPosition::TopLeft.spec_code() == 0,
        NotificationPosition::TopRight.spec_code() == 1,
        NotificationPosition::BottomLeft.spec_code() == 2,
        NotificationPosition::BottomRight.spec_code() == 3,
{
}

} // verus!
