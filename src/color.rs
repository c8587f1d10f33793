use vstd::prelude::*;

verus! {

/// A color with red, green, blue and alpha channels.
#[derive(Clone, Copy, Debug, PartialEq, Eq, Structural)]
pub struct Rgba {
    pub red: u8,
    pub green: u8,
    pub blue: u8,
    pub alpha: u8,
}

/// An opaque color with red, green and blue channels.
#[derive(Clone, Copy, Debug, PartialEq, Eq, Structural)]
pub struct Rgb {
    pub red: u8,
    pub green: u8,
    pub blue: u8,
}

/// The colors that can be chosen by name for the background.
#[derive(Clone, Copy, Debug, PartialEq, Eq, Structural)]
pub enum Color {
    Black,
    DarkGray,
    DimGray,
    Honeydew,
    SteelBlue,
    SlateGray,
    Silver,
}

/// A color name that the table of named colors does not hold.
#[derive(Debug, PartialEq, Eq)]
pub struct UnknownColor {
    pub name: String,
}

/// The channels that the SVG/CSS table of named colors gives for `name`.
pub uninterp spec fn named_rgb(name: Seq<char>) -> Option<(u8, u8, u8)>;

/// Relies on palette::named::from_str: looks `name` up in the table of named colors.
#[verifier::external_body]
fn lookup_named(name: &str) -> (r: Option<(u8, u8, u8)>)
    ensures
        r == named_rgb(name@),
{
    palette::named::from_str(name).map(|c| (c.red, c.green, c.blue))
}

impl Color {
    pub open spec fn spec_name(self) -> Seq<char> {
        match self {
            Color::Black => "black"@,
            Color::DarkGray => "darkgray"@,
            Color::DimGray => "dimgray"@,
            Color::Honeydew => "honeydew"@,
            Color::SteelBlue => "steelblue"@,
            Color::SlateGray => "slategray"@,
            Color::Silver => "silver"@,
        }
    }

    /// The color's name, in lower case.
    pub fn name(&self) -> (r: String)
        ensures
            r@ == self.spec_name(),
    {
        let s: &str = match self {
            Color::Black => "black",
            Color::DarkGray => "darkgray",
            Color::DimGray => "dimgray",
            Color::Honeydew => "honeydew",
            Color::SteelBlue => "steelblue",
            Color::SlateGray => "slategray",
            Color::Silver => "silver",
        };
        s.to_owned()
    }

    /// The color's channels, from the table of named colors.
    pub fn rgb(&self) -> (r: Result<Rgb, UnknownColor>)
        ensures
            match named_rgb(self.spec_name()) {
                Some(c) => r == Ok::<Rgb, UnknownColor>(Rgb { red: c.0, green: c.1, blue: c.2 }),
                None => r is Err && r->Err_0.name@ == self.spec_name(),
            },
    {
        let name = self.name();
        match lookup_named(name.as_str()) {
            Some((red, green, blue)) => Ok(Rgb { red, green, blue }),
            None => Err(UnknownColor { name }),
        }
    }
}

} // verus!
