use vstd::prelude::*;

verus! {

/// The primary colors according to the RYB color model.
#[derive(Debug, PartialEq, Eq, Structural)]
pub enum PrimaryColor {
    Red,
    Yellow,
    Blue,
}

/// The secondary colors according to the RYB color model.
#[derive(Debug, PartialEq, Eq, Structural)]
pub enum SecondaryColor {
    Orange,
    Green,
    Purple,
}

/// The secondary color obtained from two distinct primary colors,
/// or `None` when the two are the same color.
pub open spec fn mix_spec(c1: PrimaryColor, c2: PrimaryColor) -> Option<SecondaryColor> {
    match (c1, c2) {
        (PrimaryColor::Red, PrimaryColor::Yellow) => Some(SecondaryColor::Orange),
        (PrimaryColor::Yellow, PrimaryColor::Red) => Some(SecondaryColor::Orange),
        (PrimaryColor::Red, PrimaryColor::Blue) => Some(SecondaryColor::Purple),
        (PrimaryColor::Blue, PrimaryColor::Red) => Some(SecondaryColor::Purple),
        (PrimaryColor::Yellow, PrimaryColor::Blue) => Some(SecondaryColor::Green),
        (PrimaryColor::Blue, PrimaryColor::Yellow) => Some(SecondaryColor::Green),
        _ => None,
    }
}

/// Combines two primary colors in equal amounts to create a secondary color.
/// Mixing a primary color with itself is an error.
pub fn mix(c1: PrimaryColor, c2: PrimaryColor) -> (r: Result<SecondaryColor, &'static str>)
    ensures
        mix_spec(c1, c2) matches Some(c) ==> r matches Ok(k) && k == c,
        mix_spec(c1, c2) is None ==> (r matches Err(m) && m@ == "Invalid primary color combination."@),
{
    let result = match c1 {
        PrimaryColor::Red => {
            match c2 {
                PrimaryColor::Yellow => SecondaryColor::Orange,
                PrimaryColor::Blue => SecondaryColor::Purple,
                _ => return Err("Invalid primary color combination."),
            }
        },
        PrimaryColor::Yellow => {
            match c2 {
                PrimaryColor::Red => SecondaryColor::Orange,
                PrimaryColor::Blue => SecondaryColor::Green,
                _ => return Err("Invalid primary color combination."),
            }
        },
        PrimaryColor::Blue => {
            match c2 {
                PrimaryColor::Red => SecondaryColor::Purple,
                PrimaryColor::Yellow => SecondaryColor::Green,
                _ => return Err("Invalid primary color combination."),
            }
        },
    };

    Ok(result)
}

} // verus!
