use vstd::prelude::*;

verus! {

/// Text of a boolean as `Display` writes it.
pub open spec fn bool_text(b: bool) -> Seq<char> {
    if b {
        "true"@
    } else {
        "false"@
    }
}

/// Text shown for a dark-mode value.
pub open spec fn dark_mode_text(enabled: bool) -> Seq<char> {
    "DarkModeFmt: "@ + bool_text(enabled)
}

/// A dark-mode flag, shared with descendant components through context.
#[derive(Clone, Copy, Debug, PartialEq, Eq, Structural)]
pub struct DarkMode(pub bool);

impl DarkMode {
    /// Whether dark mode is on.
    pub fn is_enabled(self) -> (r: bool)
        ensures
            r == self.0,
    {
        self.0
    }

    /// The value as shown to the user, e.g. `DarkModeFmt: false`.
    pub fn display_text(self) -> (r: String)
        ensures
            r@ == dark_mode_text(self.0),
    {
        let mut s = String::from_str("DarkModeFmt: ");
        if self.0 {
            s.append("true");
        } else {
            s.append("false");
        }
        s
    }
}

} // verus!
