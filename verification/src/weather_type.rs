//! Classification of free-text weather descriptions into a closed set of
//! condition categories.
//!
//! The match is a case-insensitive (ASCII) substring search against an
//! ordered list of keyword groups; the first group that matches wins, so the
//! order of the checks is part of the contract.

use vstd::prelude::*;

verus! {

/// The closed set of weather condition categories that drives presentation.
#[derive(Clone, Copy, Debug, PartialEq, Eq, Structural)]
pub enum WeatherType {
    Clear,
    PartlyCloudy,
    Cloudy,
    Rain,
    Snow,
    Thunderstorm,
    Fog,
}

/// The code point of `c` with an ASCII upper-case letter folded to lower
/// case; other characters are left as they are.
pub open spec fn folded_code(c: char) -> int {
    if 65 <= c as int && c as int <= 90 {
        c as int + 32
    } else {
        c as int
    }
}

/// Case-insensitive (ASCII) equality of two characters.
pub open spec fn char_eq_ci(a: char, b: char) -> bool {
    folded_code(a) == folded_code(b)
}

/// `needle` matches `s` at position `i`, character by character,
/// case-insensitively.
pub open spec fn matches_ci_at(s: Seq<char>, needle: Seq<char>, i: int) -> bool {
    forall|j: int| 0 <= j < needle.len() ==> char_eq_ci(s[i + j], needle[j])
}

/// `s` contains `needle` as a contiguous subsequence, compared
/// case-insensitively.
pub open spec fn contains_ci(s: Seq<char>, needle: Seq<char>) -> bool {
    exists|i: int| 0 <= i && i + needle.len() <= s.len() && matches_ci_at(s, needle, i)
}

/// Case-insensitive equality of two characters, decided on their code points.
fn char_eq_ci_exec(a: char, b: char) -> (r: bool)
    ensures
        r == char_eq_ci(a, b),
{
    let ac: u32 = a as u32;
    let bc: u32 = b as u32;
    let af: u32 = if 65 <= ac && ac <= 90 {
        ac + 32
    } else {
        ac
    };
    let bf: u32 = if 65 <= bc && bc <= 90 {
        bc + 32
    } else {
        bc
    };
    af == bf
}

/// Whether `s` contains `needle`, compared case-insensitively (ASCII).
pub fn contains_keyword(s: &str, needle: &str) -> (r: bool)
    ensures
        r == contains_ci(s@, needle@),
{
    let n = s.unicode_len();
    let m = needle.unicode_len();
    if m > n {
        return false;
    }
    let mut i: usize = 0;
    while i <= n - m
        invariant
            m <= n,
            n == s@.len(),
            m == needle@.len(),
            i <= n - m + 1,
            forall|k: int| 0 <= k < i ==> !matches_ci_at(s@, needle@, k),
        decreases n - m + 1 - i,
    {
        let mut j: usize = 0;
        let mut all_match = true;
        while j < m
            invariant
                m <= n,
                n == s@.len(),
                m == needle@.len(),
                i + m <= n,
                j <= m,
                all_match <==> (forall|k: int| 0 <= k < j ==> char_eq_ci(s@[i + k], needle@[k])),
            decreases m - j,
        {
            if !char_eq_ci_exec(s.get_char(i + j), needle.get_char(j)) {
                all_match = false;
            }
            j += 1;
        }
        if all_match {
            assert(matches_ci_at(s@, needle@, i as int));
            return true;
        }
        assert(!matches_ci_at(s@, needle@, i as int));
        i += 1;
    }
    assert(forall|k: int| 0 <= k && k + needle@.len() <= s@.len() ==> !matches_ci_at(
        s@,
        needle@,
        k,
    ));
    false
}

/// The category assigned to a description: the first keyword group that the
/// description contains, case-insensitively, in this fixed order of
/// precedence; `Clear` when none matches.
pub open spec fn classify(s: Seq<char>) -> WeatherType {
    if contains_ci(s, "snow"@) {
        WeatherType::Snow
    } else if contains_ci(s, "rain"@) || contains_ci(s, "drizzle"@) {
        WeatherType::Rain
    } else if contains_ci(s, "thunder"@) || contains_ci(s, "storm"@) {
        WeatherType::Thunderstorm
    } else if contains_ci(s, "fog"@) || contains_ci(s, "mist"@) {
        WeatherType::Fog
    } else if contains_ci(s, "cloudy"@) || contains_ci(s, "overcast"@) {
        WeatherType::Cloudy
    } else if contains_ci(s, "partly"@) || contains_ci(s, "few clouds"@) || contains_ci(
        s,
        "scattered"@,
    ) {
        WeatherType::PartlyCloudy
    } else {
        WeatherType::Clear
    }
}

/// Maps a free-text weather description to its condition category.
///
/// Total over all strings: every input maps to exactly one category, and an
/// input that matches no keyword group, the empty string included, maps to
/// `Clear`.
pub fn determine_weather_type(description: &str) -> (t: WeatherType)
    ensures
        t == classify(description@),
{
    if contains_keyword(description, "snow") {
        WeatherType::Snow
    } else if contains_keyword(description, "rain") || contains_keyword(description, "drizzle") {
        WeatherType::Rain
    } else if contains_keyword(description, "thunder") || contains_keyword(description, "storm") {
        WeatherType::Thunderstorm
    } else if contains_keyword(description, "fog") || contains_keyword(description, "mist") {
        WeatherType::Fog
    } else if contains_keyword(description, "cloudy") || contains_keyword(description, "overcast") {
        WeatherType::Cloudy
    } else if contains_keyword(description, "partly") || contains_keyword(description, "few clouds")
        || contains_keyword(description, "scattered") {
        WeatherType::PartlyCloudy
    } else {
        WeatherType::Clear
    }
}

/// Snow takes precedence: every description that contains "snow" in any
/// casing classifies as `Snow`, whatever else it contains.
pub proof fn lemma_snow_precedence(s: Seq<char>)
    requires
        contains_ci(s, "snow"@),
    ensures
        classify(s) == WeatherType::Snow,
{
}

/// A description that is too short to contain any keyword, the empty string
/// included, classifies as `Clear`.
pub proof fn lemma_empty_is_clear(s: Seq<char>)
    requires
        s.len() == 0,
    ensures
        classify(s) == WeatherType::Clear,
{
    reveal_strlit("snow");
    reveal_strlit("rain");
    reveal_strlit("drizzle");
    reveal_strlit("thunder");
    reveal_strlit("storm");
    reveal_strlit("fog");
    reveal_strlit("mist");
    reveal_strlit("cloudy");
    reveal_strlit("overcast");
    reveal_strlit("partly");
    reveal_strlit("few clouds");
    reveal_strlit("scattered");
}

} // verus!
