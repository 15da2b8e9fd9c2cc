//! The notations in which a load can be given.

use vstd::prelude::*;
use vstd::string::*;
use crate::text::same_text;

verus! {

/// How the two numbers of an input are to be read.
#[derive(Clone, Copy, Debug, PartialEq, Eq, Structural)]
pub enum Representation {
    /// Impedance: resistance and reactance, in ohms.
    ImpedanceRect,
    /// Reflection coefficient: real and imaginary part.
    ReflectionRect,
    /// Reflection coefficient: magnitude and angle in degrees.
    ReflectionPolarLinear,
    /// Reflection coefficient: magnitude in decibels and angle in degrees.
    ReflectionPolarDb,
    /// Parallel network: resistance and capacitance, in prefixed units.
    NetworkRC,
}

/// Why a conversion was refused.
#[derive(Clone, Copy, Debug, PartialEq, Eq, Structural)]
pub enum ConvertError {
    /// The representation tag is none of `z`, `ri`, `ma`, `db`, `rc`.
    InvalidRepresentation,
}

/// The notation that a tag selects, if it selects one.  Tags are matched as
/// written: case and surrounding blanks count.
pub open spec fn representation_of(tag: Seq<char>) -> Result<Representation, ConvertError> {
    if tag == seq!['z'] {
        Ok(Representation::ImpedanceRect)
    } else if tag == seq!['r', 'i'] {
        Ok(Representation::ReflectionRect)
    } else if tag == seq!['m', 'a'] {
        Ok(Representation::ReflectionPolarLinear)
    } else if tag == seq!['d', 'b'] {
        Ok(Representation::ReflectionPolarDb)
    } else if tag == seq!['r', 'c'] {
        Ok(Representation::NetworkRC)
    } else {
        Err(ConvertError::InvalidRepresentation)
    }
}

/// The five tags, character by character.
proof fn lemma_tag_literals()
    ensures
        "z"@ == seq!['z'],
        "ri"@ == seq!['r', 'i'],
        "ma"@ == seq!['m', 'a'],
        "db"@ == seq!['d', 'b'],
        "rc"@ == seq!['r', 'c'],
{
    reveal_strlit("z");
    reveal_strlit("ri");
    reveal_strlit("ma");
    reveal_strlit("db");
    reveal_strlit("rc");
    assert("z"@ =~= seq!['z']);
    assert("ri"@ =~= seq!['r', 'i']);
    assert("ma"@ =~= seq!['m', 'a']);
    assert("db"@ =~= seq!['d', 'b']);
    assert("rc"@ =~= seq!['r', 'c']);
}

impl Representation {
    /// The tag that selects this notation.
    pub open spec fn tag_spec(self) -> Seq<char> {
        match self {
            Representation::ImpedanceRect => seq!['z'],
            Representation::ReflectionRect => seq!['r', 'i'],
            Representation::ReflectionPolarLinear => seq!['m', 'a'],
            Representation::ReflectionPolarDb => seq!['d', 'b'],
            Representation::NetworkRC => seq!['r', 'c'],
        }
    }

    /// Reads a representation tag.  Anything but the five tags is refused.
    pub fn parse(tag: &str) -> (out: Result<Representation, ConvertError>)
        ensures
            out == representation_of(tag@),
    {
        proof {
            lemma_tag_literals();
        }
        if same_text(tag, "z") {
            Ok(Representation::ImpedanceRect)
        } else if same_text(tag, "ri") {
            Ok(Representation::ReflectionRect)
        } else if same_text(tag, "ma") {
            Ok(Representation::ReflectionPolarLinear)
        } else if same_text(tag, "db") {
            Ok(Representation::ReflectionPolarDb)
        } else if same_text(tag, "rc") {
            Ok(Representation::NetworkRC)
        } else {
            Err(ConvertError::InvalidRepresentation)
        }
    }

    /// The tag that selects this notation.
    pub fn tag(self) -> (out: &'static str)
        ensures
            out@ == self.tag_spec(),
    {
        proof {
            lemma_tag_literals();
        }
        match self {
            Representation::ImpedanceRect => "z",
            Representation::ReflectionRect => "ri",
            Representation::ReflectionPolarLinear => "ma",
            Representation::ReflectionPolarDb => "db",
            Representation::NetworkRC => "rc",
        }
    }
}

impl ConvertError {
    /// What to tell the user.
    pub open spec fn message_spec(self) -> Seq<char> {
        "invalid impedance format"@
    }

    /// What to tell the user.
    pub fn message(self) -> (out: String)
        ensures
            out@ == self.message_spec(),
    {
        String::from_str("invalid impedance format")
    }
}

/// A tag is read as a notation exactly when it is that notation's own tag.
pub proof fn lemma_parse_inverts_tag(tag: Seq<char>, r: Representation)
    ensures
        representation_of(r.tag_spec()) == Ok::<Representation, ConvertError>(r),
        representation_of(tag) == Ok::<Representation, ConvertError>(r) <==> tag == r.tag_spec(),
{
    assert(seq!['z'].len() == 1);
    assert(seq!['r', 'i'].len() == 2 && seq!['r', 'i'][0] == 'r' && seq!['r', 'i'][1] == 'i');
    assert(seq!['m', 'a'].len() == 2 && seq!['m', 'a'][0] == 'm' && seq!['m', 'a'][1] == 'a');
    assert(seq!['d', 'b'].len() == 2 && seq!['d', 'b'][0] == 'd' && seq!['d', 'b'][1] == 'b');
    assert(seq!['r', 'c'].len() == 2 && seq!['r', 'c'][0] == 'r' && seq!['r', 'c'][1] == 'c');
}

} // verus!
