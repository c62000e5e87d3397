//! Stable identifiers for tray icons, used to correlate native callbacks
//! back to the owning driver instance.

use vstd::prelude::*;

verus! {

/// An unique id that is associated with a tray icon.
///
/// Uniqueness is the caller's responsibility; the id is used only for
/// correlation and display, and is immutable once assigned.
#[derive(Debug, Hash, Default)]
pub struct TrayIconId(pub String);

impl Clone for TrayIconId {
    fn clone(&self) -> (r: Self)
        ensures
            r@ == self@,
    {
        TrayIconId(self.0.clone())
    }
}

impl View for TrayIconId {
    type V = Seq<char>;

    open spec fn view(&self) -> Seq<char> {
        self.0@
    }
}

impl TrayIconId {
    /// Create a new tray icon id.
    pub fn new(id: &str) -> (r: Self)
        ensures
            r@ == id@,
    {
        TrayIconId(id.to_owned())
    }

    /// The id as a string slice.
    pub fn as_ref(&self) -> (r: &str)
        ensures
            r@ == self@,
    {
        self.0.as_str()
    }
}

impl From<String> for TrayIconId {
    fn from(value: String) -> (r: Self)
        ensures
            r@ == value@,
    {
        TrayIconId(value)
    }
}

impl vstd::std_specs::convert::FromSpecImpl<String> for TrayIconId {
    open spec fn obeys_from_spec() -> bool {
        true
    }

    open spec fn from_spec(value: String) -> Self {
        TrayIconId(value)
    }
}

impl core::str::FromStr for TrayIconId {
    type Err = core::convert::Infallible;

    fn from_str(s: &str) -> (r: Result<Self, core::convert::Infallible>)
        ensures
            r matches Ok(id) && id@ == s@,
    {
        Ok(TrayIconId::new(s))
    }
}

impl PartialEq for TrayIconId {
    fn eq(&self, other: &TrayIconId) -> (r: bool)
        ensures
            r == (self@ == other@),
    {
        self.0 == other.0
    }
}

impl vstd::std_specs::cmp::PartialEqSpecImpl for TrayIconId {
    open spec fn obeys_eq_spec() -> bool {
        true
    }

    open spec fn eq_spec(&self, other: &TrayIconId) -> bool {
        self@ == other@
    }
}

impl PartialEq<&str> for TrayIconId {
    fn eq(&self, other: &&str) -> (r: bool)
        ensures
            r == (self@ == other@),
    {
        self.0 == (*other).to_owned()
    }
}

impl vstd::std_specs::cmp::PartialEqSpecImpl<&str> for TrayIconId {
    open spec fn obeys_eq_spec() -> bool {
        true
    }

    open spec fn eq_spec(&self, other: &&str) -> bool {
        self@ == other@
    }
}

impl PartialEq<String> for TrayIconId {
    fn eq(&self, other: &String) -> (r: bool)
        ensures
            r == (self@ == other@),
    {
        self.0 == *other
    }
}

impl vstd::std_specs::cmp::PartialEqSpecImpl<String> for TrayIconId {
    open spec fn obeys_eq_spec() -> bool {
        true
    }

    open spec fn eq_spec(&self, other: &String) -> bool {
        self@ == other@
    }
}

impl PartialEq<&String> for TrayIconId {
    fn eq(&self, other: &&String) -> (r: bool)
        ensures
            r == (self@ == other@),
    {
        self.0 == **other
    }
}

impl vstd::std_specs::cmp::PartialEqSpecImpl<&String> for TrayIconId {
    open spec fn obeys_eq_spec() -> bool {
        true
    }

    open spec fn eq_spec(&self, other: &&String) -> bool {
        self@ == other@
    }
}

impl PartialEq<&TrayIconId> for TrayIconId {
    fn eq(&self, other: &&TrayIconId) -> (r: bool)
        ensures
            r == (self@ == other@),
    {
        self.0 == other.0
    }
}

impl vstd::std_specs::cmp::PartialEqSpecImpl<&TrayIconId> for TrayIconId {
    open spec fn obeys_eq_spec() -> bool {
        true
    }

    open spec fn eq_spec(&self, other: &&TrayIconId) -> bool {
        self@ == other@
    }
}

} // verus!
