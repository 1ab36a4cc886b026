use vstd::prelude::*;

verus! {

/// The look of the application's widgets.
#[derive(Debug, Copy, Clone, PartialEq, Eq, Structural)]
pub enum Scheme {
    /// The toolkit's own base look
    Base,
    /// Inspired by the Aqua user interface on Mac OS X
    Plastic,
    /// Inspired by the GTK+ theme
    Gtk,
    /// Inspired by the Clearlooks Glossy scheme
    Gleam,
}

/// Another name for `Scheme`.
pub type AppScheme = Scheme;

/// The name by which the toolkit knows `scheme`.
pub open spec fn scheme_name(scheme: Scheme) -> Seq<char> {
    match scheme {
        Scheme::Base => "base"@,
        Scheme::Gtk => "gtk+"@,
        Scheme::Gleam => "gleam"@,
        Scheme::Plastic => "plastic"@,
    }
}

/// The scheme that the toolkit reports by `code`, if the code is one it uses.
pub open spec fn scheme_of_code(code: i32) -> Option<Scheme> {
    if code == 0 {
        Some(Scheme::Base)
    } else if code == 1 {
        Some(Scheme::Gtk)
    } else if code == 2 {
        Some(Scheme::Gleam)
    } else if code == 3 {
        Some(Scheme::Plastic)
    } else {
        None
    }
}

impl Scheme {
    /// The name to hand the toolkit when setting this scheme.
    pub fn name(self) -> (r: &'static str)
        ensures
            r@ == scheme_name(self),
    {
        match self {
            Scheme::Base => {
                proof {
                    reveal_strlit("base");
                }
                "base"
            },
            Scheme::Gtk => {
                proof {
                    reveal_strlit("gtk+");
                }
                "gtk+"
            },
            Scheme::Gleam => {
                proof {
                    reveal_strlit("gleam");
                }
                "gleam"
            },
            Scheme::Plastic => {
                proof {
                    reveal_strlit("plastic");
                }
                "plastic"
            },
        }
    }

    /// The scheme that the toolkit reports by `code`; `None` for a code it does not use.
    pub fn from_code(code: i32) -> (r: Option<Scheme>)
        ensures
            r == scheme_of_code(code),
    {
        match code {
            0 => Some(Scheme::Base),
            1 => Some(Scheme::Gtk),
            2 => Some(Scheme::Gleam),
            3 => Some(Scheme::Plastic),
            _ => None,
        }
    }
}

} // verus!
