//! Unit prefixes and the powers of ten they stand for.
//!
//! A tag such as `"giga"`, `"GHz"` or `"pF"` names the factor that takes a
//! value in the base unit to the value shown in the prefixed unit: a value in
//! hertz times 10^-9 is the same frequency in gigahertz.  Every factor is a
//! power of ten and is held here by its exponent, so that scaling is exact.

use vstd::prelude::*;
use vstd::arithmetic::power::pow;
use crate::decimal::{lemma_shift_multiplies, positive_part, shift_exp, shifted, Decimal};
use crate::text::same_text;

verus! {

/// The decimal exponent of the factor that `tag` names.  A tag outside the
/// table, the empty one included, names the factor one.
pub open spec fn mult_exp10(tag: Seq<char>) -> int {
    if tag == "tera"@ || tag == "T"@ || tag == "THz"@ || tag == "thz"@ {
        -12
    } else if tag == "giga"@ || tag == "G"@ || tag == "GHz"@ || tag == "ghz"@ || tag == "GΩ"@ {
        -9
    } else if tag == "mega"@ || tag == "M"@ || tag == "MHz"@ || tag == "mhz"@ || tag == "MΩ"@ {
        -6
    } else if tag == "kilo"@ || tag == "k"@ || tag == "kHz"@ || tag == "khz"@ || tag == "kΩ"@ {
        -3
    } else if tag == "milli"@ || tag == "m"@ || tag == "mΩ"@ || tag == "mF"@ || tag == "mH"@ {
        3
    } else if tag == "micro"@ || tag == "u"@ || tag == "μΩ"@ || tag == "μF"@ || tag == "μH"@ {
        6
    } else if tag == "nano"@ || tag == "n"@ || tag == "nΩ"@ || tag == "nF"@ || tag == "nH"@ {
        9
    } else if tag == "pico"@ || tag == "p"@ || tag == "pΩ"@ || tag == "pF"@ || tag == "pH"@ {
        12
    } else if tag == "femto"@ || tag == "f"@ || tag == "fΩ"@ || tag == "fF"@ || tag == "fH"@ {
        15
    } else {
        0
    }
}

/// Looks up the factor that a unit tag names and returns its decimal
/// exponent: the factor itself is ten to that power.
pub fn get_mult(tag: &str) -> (exp10: i32)
    ensures
        exp10 == mult_exp10(tag@),
{
    if same_text(tag, "tera") || same_text(tag, "T") || same_text(tag, "THz") || same_text(
        tag,
        "thz",
    ) {
        -12
    } else if same_text(tag, "giga") || same_text(tag, "G") || same_text(tag, "GHz")
        || same_text(tag, "ghz") || same_text(tag, "GΩ") {
        -9
    } else if same_text(tag, "mega") || same_text(tag, "M") || same_text(tag, "MHz")
        || same_text(tag, "mhz") || same_text(tag, "MΩ") {
        -6
    } else if same_text(tag, "kilo") || same_text(tag, "k") || same_text(tag, "kHz")
        || same_text(tag, "khz") || same_text(tag, "kΩ") {
        -3
    } else if same_text(tag, "milli") || same_text(tag, "m") || same_text(tag, "mΩ")
        || same_text(tag, "mF") || same_text(tag, "mH") {
        3
    } else if same_text(tag, "micro") || same_text(tag, "u") || same_text(tag, "μΩ")
        || same_text(tag, "μF") || same_text(tag, "μH") {
        6
    } else if same_text(tag, "nano") || same_text(tag, "n") || same_text(tag, "nΩ")
        || same_text(tag, "nF") || same_text(tag, "nH") {
        9
    } else if same_text(tag, "pico") || same_text(tag, "p") || same_text(tag, "pΩ")
        || same_text(tag, "pF") || same_text(tag, "pH") {
        12
    } else if same_text(tag, "femto") || same_text(tag, "f") || same_text(tag, "fΩ")
        || same_text(tag, "fF") || same_text(tag, "fH") {
        15
    } else {
        0
    }
}

/// `val` times the factor that `tag` names.
pub open spec fn scale_spec(val: Decimal, tag: Seq<char>) -> Option<Decimal> {
    shifted(val, mult_exp10(tag))
}

/// `val` divided by the factor that `tag` names.
pub open spec fn unscale_spec(val: Decimal, tag: Seq<char>) -> Option<Decimal> {
    shifted(val, -mult_exp10(tag))
}

/// Takes a value in the base unit to the prefixed unit that `tag` names,
/// by multiplying it with that tag's factor.  The result is exact; there is
/// none only where its exponent would leave the range of `i32`.
pub fn scale(val: Decimal, tag: &str) -> (out: Option<Decimal>)
    ensures
        out == scale_spec(val, tag@),
{
    shift_exp(val, get_mult(tag))
}

/// Takes a value in the prefixed unit that `tag` names back to the base
/// unit, by dividing it by that tag's factor.  The result is exact; there is
/// none only where its exponent would leave the range of `i32`.
pub fn unscale(val: Decimal, tag: &str) -> (out: Option<Decimal>)
    ensures
        out == unscale_spec(val, tag@),
{
    shift_exp(val, -get_mult(tag))
}

/// Unscaling undoes scaling by the same tag, and scaling undoes unscaling,
/// with no loss: whenever the first step has a result, the second gives the
/// starting value back.
pub proof fn lemma_scale_unscale_inverse(val: Decimal, tag: Seq<char>)
    ensures
        scale_spec(val, tag) matches Some(w) ==> unscale_spec(w, tag) == Some(val),
        unscale_spec(val, tag) matches Some(w) ==> scale_spec(w, tag) == Some(val),
{
}

/// Scaling multiplies by the factor of the tag and unscaling divides by it:
/// as fractions, `scale(val) = val * 10^k` and `unscale(val) * 10^k = val`,
/// where `k` is the exponent that the tag names.  Negative powers are
/// written on the other side of the equation.
pub proof fn lemma_scale_multiplies(val: Decimal, tag: Seq<char>)
    ensures
        scale_spec(val, tag) matches Some(w) ==> w.numer() * val.denom() * pow(
            10,
            positive_part(-mult_exp10(tag)),
        ) == val.numer() * w.denom() * pow(10, positive_part(mult_exp10(tag))),
        unscale_spec(val, tag) matches Some(w) ==> w.numer() * val.denom() * pow(
            10,
            positive_part(mult_exp10(tag)),
        ) == val.numer() * w.denom() * pow(10, positive_part(-mult_exp10(tag))),
{
    let k = mult_exp10(tag);
    if scale_spec(val, tag).is_some() {
        lemma_shift_multiplies(val, k);
    }
    if unscale_spec(val, tag).is_some() {
        lemma_shift_multiplies(val, -k);
    }
}

/// Whether `tag` is one of the aliases of the table.
pub open spec fn is_alias(tag: Seq<char>) -> bool {
    tag == "tera"@ || tag == "T"@ || tag == "THz"@ || tag == "thz"@
    || tag == "giga"@ || tag == "G"@ || tag == "GHz"@ || tag == "ghz"@ || tag == "GΩ"@
    || tag == "mega"@ || tag == "M"@ || tag == "MHz"@ || tag == "mhz"@ || tag == "MΩ"@
    || tag == "kilo"@ || tag == "k"@ || tag == "kHz"@ || tag == "khz"@ || tag == "kΩ"@
    || tag == "milli"@ || tag == "m"@ || tag == "mΩ"@ || tag == "mF"@ || tag == "mH"@
    || tag == "micro"@ || tag == "u"@ || tag == "μΩ"@ || tag == "μF"@ || tag == "μH"@
    || tag == "nano"@ || tag == "n"@ || tag == "nΩ"@ || tag == "nF"@ || tag == "nH"@
    || tag == "pico"@ || tag == "p"@ || tag == "pΩ"@ || tag == "pF"@ || tag == "pH"@
    || tag == "femto"@ || tag == "f"@ || tag == "fΩ"@ || tag == "fF"@ || tag == "fH"@
}

/// The tags that name the factor one are exactly those outside the table.
pub proof fn lemma_unlisted_is_one(tag: Seq<char>)
    ensures
        mult_exp10(tag) == 0 <==> !is_alias(tag),
{
}

/// Each alias of the table names the factor of its family, so no alias
/// stands in two families; the empty tag names the factor one.
pub proof fn lemma_alias_table()
    ensures
        mult_exp10("tera"@) == -12,
        mult_exp10("T"@) == -12,
        mult_exp10("THz"@) == -12,
        mult_exp10("thz"@) == -12,
        mult_exp10("giga"@) == -9,
        mult_exp10("G"@) == -9,
        mult_exp10("GHz"@) == -9,
        mult_exp10("ghz"@) == -9,
        mult_exp10("GΩ"@) == -9,
        mult_exp10("mega"@) == -6,
        mult_exp10("M"@) == -6,
        mult_exp10("MHz"@) == -6,
        mult_exp10("mhz"@) == -6,
        mult_exp10("MΩ"@) == -6,
        mult_exp10("kilo"@) == -3,
        mult_exp10("k"@) == -3,
        mult_exp10("kHz"@) == -3,
        mult_exp10("khz"@) == -3,
        mult_exp10("kΩ"@) == -3,
        mult_exp10("milli"@) == 3,
        mult_exp10("m"@) == 3,
        mult_exp10("mΩ"@) == 3,
        mult_exp10("mF"@) == 3,
        mult_exp10("mH"@) == 3,
        mult_exp10("micro"@) == 6,
        mult_exp10("u"@) == 6,
        mult_exp10("μΩ"@) == 6,
        mult_exp10("μF"@) == 6,
        mult_exp10("μH"@) == 6,
        mult_exp10("nano"@) == 9,
        mult_exp10("n"@) == 9,
        mult_exp10("nΩ"@) == 9,
        mult_exp10("nF"@) == 9,
        mult_exp10("nH"@) == 9,
        mult_exp10("pico"@) == 12,
        mult_exp10("p"@) == 12,
        mult_exp10("pΩ"@) == 12,
        mult_exp10("pF"@) == 12,
        mult_exp10("pH"@) == 12,
        mult_exp10("femto"@) == 15,
        mult_exp10("f"@) == 15,
        mult_exp10("fΩ"@) == 15,
        mult_exp10("fF"@) == 15,
        mult_exp10("fH"@) == 15,
        mult_exp10(""@) == 0,
{
    assert("tera"@.len() == 4 && "tera"@[0] == 't' && "tera"@[1] == 'e' && "tera"@[2] == 'r' && "tera"@[3] == 'a') by {
        reveal_strlit("tera");
    }
    assert("T"@.len() == 1 && "T"@[0] == 'T') by {
        reveal_strlit("T");
    }
    assert("THz"@.len() == 3 && "THz"@[0] == 'T' && "THz"@[1] == 'H' && "THz"@[2] == 'z') by {
        reveal_strlit("THz");
    }
    assert("thz"@.len() == 3 && "thz"@[0] == 't' && "thz"@[1] == 'h' && "thz"@[2] == 'z') by {
        reveal_strlit("thz");
    }
    assert("giga"@.len() == 4 && "giga"@[0] == 'g' && "giga"@[1] == 'i' && "giga"@[2] == 'g' && "giga"@[3] == 'a') by {
        reveal_strlit("giga");
    }
    assert("G"@.len() == 1 && "G"@[0] == 'G') by {
        reveal_strlit("G");
    }
    assert("GHz"@.len() == 3 && "GHz"@[0] == 'G' && "GHz"@[1] == 'H' && "GHz"@[2] == 'z') by {
        reveal_strlit("GHz");
    }
    assert("ghz"@.len() == 3 && "ghz"@[0] == 'g' && "ghz"@[1] == 'h' && "ghz"@[2] == 'z') by {
        reveal_strlit("ghz");
    }
    assert("GΩ"@.len() == 2 && "GΩ"@[0] == 'G' && "GΩ"@[1] == 'Ω') by {
        reveal_strlit("GΩ");
    }
    assert("mega"@.len() == 4 && "mega"@[0] == 'm' && "mega"@[1] == 'e' && "mega"@[2] == 'g' && "mega"@[3] == 'a') by {
        reveal_strlit("mega");
    }
    assert("M"@.len() == 1 && "M"@[0] == 'M') by {
        reveal_strlit("M");
    }
    assert("MHz"@.len() == 3 && "MHz"@[0] == 'M' && "MHz"@[1] == 'H' && "MHz"@[2] == 'z') by {
        reveal_strlit("MHz");
    }
    assert("mhz"@.len() == 3 && "mhz"@[0] == 'm' && "mhz"@[1] == 'h' && "mhz"@[2] == 'z') by {
        reveal_strlit("mhz");
    }
    assert("MΩ"@.len() == 2 && "MΩ"@[0] == 'M' && "MΩ"@[1] == 'Ω') by {
        reveal_strlit("MΩ");
    }
    assert("kilo"@.len() == 4 && "kilo"@[0] == 'k' && "kilo"@[1] == 'i' && "kilo"@[2] == 'l' && "kilo"@[3] == 'o') by {
        reveal_strlit("kilo");
    }
    assert("k"@.len() == 1 && "k"@[0] == 'k') by {
        reveal_strlit("k");
    }
    assert("kHz"@.len() == 3 && "kHz"@[0] == 'k' && "kHz"@[1] == 'H' && "kHz"@[2] == 'z') by {
        reveal_strlit("kHz");
    }
    assert("khz"@.len() == 3 && "khz"@[0] == 'k' && "khz"@[1] == 'h' && "khz"@[2] == 'z') by {
        reveal_strlit("khz");
    }
    assert("kΩ"@.len() == 2 && "kΩ"@[0] == 'k' && "kΩ"@[1] == 'Ω') by {
        reveal_strlit("kΩ");
    }
    assert("milli"@.len() == 5 && "milli"@[0] == 'm' && "milli"@[1] == 'i' && "milli"@[2] == 'l' && "milli"@[3] == 'l' && "milli"@[4] == 'i') by {
        reveal_strlit("milli");
    }
    assert("m"@.len() == 1 && "m"@[0] == 'm') by {
        reveal_strlit("m");
    }
    assert("mΩ"@.len() == 2 && "mΩ"@[0] == 'm' && "mΩ"@[1] == 'Ω') by {
        reveal_strlit("mΩ");
    }
    assert("mF"@.len() == 2 && "mF"@[0] == 'm' && "mF"@[1] == 'F') by {
        reveal_strlit("mF");
    }
    assert("mH"@.len() == 2 && "mH"@[0] == 'm' && "mH"@[1] == 'H') by {
        reveal_strlit("mH");
    }
    assert("micro"@.len() == 5 && "micro"@[0] == 'm' && "micro"@[1] == 'i' && "micro"@[2] == 'c' && "micro"@[3] == 'r' && "micro"@[4] == 'o') by {
        reveal_strlit("micro");
    }
    assert("u"@.len() == 1 && "u"@[0] == 'u') by {
        reveal_strlit("u");
    }
    assert("μΩ"@.len() == 2 && "μΩ"@[0] == 'μ' && "μΩ"@[1] == 'Ω') by {
        reveal_strlit("μΩ");
    }
    assert("μF"@.len() == 2 && "μF"@[0] == 'μ' && "μF"@[1] == 'F') by {
        reveal_strlit("μF");
    }
    assert("μH"@.len() == 2 && "μH"@[0] == 'μ' && "μH"@[1] == 'H') by {
        reveal_strlit("μH");
    }
    assert("nano"@.len() == 4 && "nano"@[0] == 'n' && "nano"@[1] == 'a' && "nano"@[2] == 'n' && "nano"@[3] == 'o') by {
        reveal_strlit("nano");
    }
    assert("n"@.len() == 1 && "n"@[0] == 'n') by {
        reveal_strlit("n");
    }
    assert("nΩ"@.len() == 2 && "nΩ"@[0] == 'n' && "nΩ"@[1] == 'Ω') by {
        reveal_strlit("nΩ");
    }
    assert("nF"@.len() == 2 && "nF"@[0] == 'n' && "nF"@[1] == 'F') by {
        reveal_strlit("nF");
    }
    assert("nH"@.len() == 2 && "nH"@[0] == 'n' && "nH"@[1] == 'H') by {
        reveal_strlit("nH");
    }
    assert("pico"@.len() == 4 && "pico"@[0] == 'p' && "pico"@[1] == 'i' && "pico"@[2] == 'c' && "pico"@[3] == 'o') by {
        reveal_strlit("pico");
    }
    assert("p"@.len() == 1 && "p"@[0] == 'p') by {
        reveal_strlit("p");
    }
    assert("pΩ"@.len() == 2 && "pΩ"@[0] == 'p' && "pΩ"@[1] == 'Ω') by {
        reveal_strlit("pΩ");
    }
    assert("pF"@.len() == 2 && "pF"@[0] == 'p' && "pF"@[1] == 'F') by {
        reveal_strlit("pF");
    }
    assert("pH"@.len() == 2 && "pH"@[0] == 'p' && "pH"@[1] == 'H') by {
        reveal_strlit("pH");
    }
    assert("femto"@.len() == 5 && "femto"@[0] == 'f' && "femto"@[1] == 'e' && "femto"@[2] == 'm' && "femto"@[3] == 't' && "femto"@[4] == 'o') by {
        reveal_strlit("femto");
    }
    assert("f"@.len() == 1 && "f"@[0] == 'f') by {
        reveal_strlit("f");
    }
    assert("fΩ"@.len() == 2 && "fΩ"@[0] == 'f' && "fΩ"@[1] == 'Ω') by {
        reveal_strlit("fΩ");
    }
    assert("fF"@.len() == 2 && "fF"@[0] == 'f' && "fF"@[1] == 'F') by {
        reveal_strlit("fF");
    }
    assert("fH"@.len() == 2 && "fH"@[0] == 'f' && "fH"@[1] == 'H') by {
        reveal_strlit("fH");
    }
    assert(""@.len() == 0) by {
        reveal_strlit("");
    }
}

} // verus!
