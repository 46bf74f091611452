//! Where a character stands on the scene.
use vstd::prelude::*;
use vstd::string::*;

verus! {

/// Position of a character on the scene.
#[derive(Clone, Copy, Debug, PartialEq, Eq, Structural)]
pub enum CharacterLocation {
    /// At the left edge.
    Left,
    /// In the middle of the left half.
    LeftCenter,
    /// Just left of the centre.
    CenterLeft,
    /// In the centre.
    Center,
    /// Just right of the centre.
    CenterRight,
    /// In the middle of the right half.
    RightCenter,
    /// At the right edge.
    Right,
}

/// The location that a script writes as `name`, if any.
pub open spec fn location_named(name: Seq<char>) -> Option<CharacterLocation> {
    if name == "Left"@ {
        Some(CharacterLocation::Left)
    } else if name == "LeftCenter"@ {
        Some(CharacterLocation::LeftCenter)
    } else if name == "CenterLeft"@ {
        Some(CharacterLocation::CenterLeft)
    } else if name == "Center"@ {
        Some(CharacterLocation::Center)
    } else if name == "CenterRight"@ {
        Some(CharacterLocation::CenterRight)
    } else if name == "RightCenter"@ {
        Some(CharacterLocation::RightCenter)
    } else if name == "Right"@ {
        Some(CharacterLocation::Right)
    } else {
        None
    }
}

/// The location stored as the byte `b` (its declaration order), if any.
pub open spec fn location_of_byte(b: u8) -> Option<CharacterLocation> {
    if b == 0 {
        Some(CharacterLocation::Left)
    } else if b == 1 {
        Some(CharacterLocation::LeftCenter)
    } else if b == 2 {
        Some(CharacterLocation::CenterLeft)
    } else if b == 3 {
        Some(CharacterLocation::Center)
    } else if b == 4 {
        Some(CharacterLocation::CenterRight)
    } else if b == 5 {
        Some(CharacterLocation::RightCenter)
    } else if b == 6 {
        Some(CharacterLocation::Right)
    } else {
        None
    }
}

/// The place of `v` in the declaration of `CharacterLocation`, counted from 0
/// (`Left` first, `Right` last).
pub open spec fn location_index(v: CharacterLocation) -> nat {
    match v {
        CharacterLocation::Left => 0,
        CharacterLocation::LeftCenter => 1,
        CharacterLocation::CenterLeft => 2,
        CharacterLocation::Center => 3,
        CharacterLocation::CenterRight => 4,
        CharacterLocation::RightCenter => 5,
        CharacterLocation::Right => 6,
    }
}

/// The name under which `v` is declared.
pub open spec fn location_name(v: CharacterLocation) -> Seq<char> {
    match v {
        CharacterLocation::Left => "Left"@,
        CharacterLocation::LeftCenter => "LeftCenter"@,
        CharacterLocation::CenterLeft => "CenterLeft"@,
        CharacterLocation::Center => "Center"@,
        CharacterLocation::CenterRight => "CenterRight"@,
        CharacterLocation::RightCenter => "RightCenter"@,
        CharacterLocation::Right => "Right"@,
    }
}

/// A stored byte is the place of its location in the declaration: the byte
/// `b` gives the location `v` exactly when `v` is declared at place `b`, and
/// only the bytes past the last place give none.
pub proof fn lemma_byte_is_declaration_place(b: u8, v: CharacterLocation)
    ensures
        location_of_byte(b) == Some(v) <==> b as nat == location_index(v),
        location_of_byte(b) is None <==> b >= 7,
{
}

/// A script names a location by the name under which it is declared: the
/// text `n` gives the location `v` exactly when `n` is the name of `v`, so
/// different names give different locations.
pub proof fn lemma_name_is_declared_name(n: Seq<char>, v: CharacterLocation)
    ensures
        location_named(n) == Some(v) <==> n == location_name(v),
{
    reveal_strlit("Left");
    reveal_strlit("LeftCenter");
    reveal_strlit("CenterLeft");
    reveal_strlit("Center");
    reveal_strlit("CenterRight");
    reveal_strlit("RightCenter");
    reveal_strlit("Right");
    assert("Left"@.len() == 4 && "Right"@.len() == 5 && "Center"@.len() == 6);
    assert("LeftCenter"@.len() == 10 && "CenterLeft"@.len() == 10);
    assert("CenterRight"@.len() == 11 && "RightCenter"@.len() == 11);
    assert("LeftCenter"@[0] != "CenterLeft"@[0]);
    assert("CenterRight"@[0] != "RightCenter"@[0]);
}

impl CharacterLocation {
    /// The location that a script writes as `name`; `None` for any other text.
    pub fn from_name(name: &str) -> (r: Option<CharacterLocation>)
        ensures
            r == location_named(name@),
    {
        let name = String::from_str(name);
        if name == String::from_str("Left") {
            Some(CharacterLocation::Left)
        } else if name == String::from_str("LeftCenter") {
            Some(CharacterLocation::LeftCenter)
        } else if name == String::from_str("CenterLeft") {
            Some(CharacterLocation::CenterLeft)
        } else if name == String::from_str("Center") {
            Some(CharacterLocation::Center)
        } else if name == String::from_str("CenterRight") {
            Some(CharacterLocation::CenterRight)
        } else if name == String::from_str("RightCenter") {
            Some(CharacterLocation::RightCenter)
        } else if name == String::from_str("Right") {
            Some(CharacterLocation::Right)
        } else {
            None
        }
    }

    /// The location stored as the byte `b`; `None` for a byte above 6.
    pub fn from_byte(b: u8) -> (r: Option<CharacterLocation>)
        ensures
            r == location_of_byte(b),
    {
        match b {
            0 => Some(CharacterLocation::Left),
            1 => Some(CharacterLocation::LeftCenter),
            2 => Some(CharacterLocation::CenterLeft),
            3 => Some(CharacterLocation::Center),
            4 => Some(CharacterLocation::CenterRight),
            5 => Some(CharacterLocation::RightCenter),
            6 => Some(CharacterLocation::Right),
            _ => None,
        }
    }
}

} // verus!
