//! Whether the application status is shown.
use vstd::prelude::*;
use vstd::string::StringExecFns;

verus! {

/// Whether the debug menu shows the application's status.
pub struct ShowAppStatus(pub bool);

impl Default for ShowAppStatus {
    fn default() -> (r: Self)
        ensures
            !r.0,
    {
        Self(false)
    }
}

impl ShowAppStatus {
    /// The word on the status button: `close` while the status is shown, `open` otherwise.
    pub fn verb(&self) -> (r: &'static str)
        ensures
            self.0 ==> r@ == "close"@,
            !self.0 ==> r@ == "open"@,
    {
        if self.0 {
            "close"
        } else {
            "open"
        }
    }

    /// The label of the status button.
    pub fn button_label(&self) -> (r: String)
        ensures
            self.0 ==> r@ == "close"@ + " app status"@,
            !self.0 ==> r@ == "open"@ + " app status"@,
    {
        let mut r = self.verb().to_owned();
        r.append(" app status");
        r
    }

    /// A click on the status button flips whether the status is shown.
    pub fn toggle(&mut self)
        ensures
            final(self).0 == !old(self).0,
    {
        self.0 = !self.0;
    }
}

} // verus!
