//! The settings tab: its per-tab state and the labels it shows.
use vstd::prelude::*;

use crate::text::{
    concat_chars, decimal, decimal_chars, lemma_decimal_parses, lemma_decimal_roundtrip, parse_unsigned,
    string_from_chars, to_chars,
};

verus! {

broadcast use vstd::string::group_string_axioms;

/// What the settings tab keeps between frames (nothing so far).
#[derive(Default)]
pub struct State {}

/// The label of a sampling interval in milliseconds, when it is a whole
/// number of the unit shown: milliseconds below one second (`"250 ms"`),
/// whole seconds otherwise (`"2 s"`). Intervals of a fractional number of
/// seconds (shown with one decimal, `"1.5 s"`) have no label here: that
/// one is formatted from the floating-point quotient.
pub open spec fn ms_label(ms: u64) -> Option<Seq<char>> {
    if ms < 1000 {
        Some(decimal(ms as nat) + " ms"@)
    } else if ms % 1000 == 0 {
        Some(decimal((ms / 1000) as nat) + " s"@)
    } else {
        None
    }
}

/// Format a sampling interval, as far as integers can: see `ms_label`.
pub fn format_ms(ms: u64) -> (r: Option<String>)
    ensures
        r matches Some(s) ==> ms_label(ms) == Some(s@),
        r is None ==> ms_label(ms) is None,
{
    if ms < 1000 {
        let digits = decimal_chars(ms);
        let unit = to_chars(" ms");
        let label = concat_chars(digits.as_slice(), unit.as_slice());
        Some(string_from_chars(label.as_slice()))
    } else if ms % 1000 == 0 {
        let digits = decimal_chars(ms / 1000);
        let unit = to_chars(" s");
        let label = concat_chars(digits.as_slice(), unit.as_slice());
        Some(string_from_chars(label.as_slice()))
    } else {
        None
    }
}

/// A label reads back as the interval it shows: below one second, a number
/// of milliseconds followed by ` ms`; a whole number of seconds from one
/// second up, that number followed by ` s`; no label otherwise.
pub proof fn law_label_reads_back(ms: u64)
    ensures
        ms < 1000 ==> ms_label(ms) is Some && ({
            let l = ms_label(ms)->0;
            l.len() > 3 && l.skip(l.len() - 3) == " ms"@ && parse_unsigned(l.take(l.len() - 3), 10, u64::MAX as nat) == Some(ms as nat)
        }),
        ms >= 1000 && ms % 1000 == 0 ==> ms_label(ms) is Some && ({
            let l = ms_label(ms)->0;
            l.len() > 2 && l.skip(l.len() - 2) == " s"@ && parse_unsigned(l.take(l.len() - 2), 10, u64::MAX as nat) == Some((ms / 1000) as nat)
        }),
        ms >= 1000 && ms % 1000 != 0 ==> ms_label(ms) is None,
{
    reveal_strlit(" ms");
    reveal_strlit(" s");
    lemma_decimal_roundtrip(ms as nat, u64::MAX as nat);
    lemma_decimal_roundtrip((ms / 1000) as nat, u64::MAX as nat);
    lemma_decimal_parses(ms as nat);
    lemma_decimal_parses((ms / 1000) as nat);
    let a = decimal(ms as nat) + " ms"@;
    assert(a.take(a.len() - 3) == decimal(ms as nat));
    assert(a.skip(a.len() - 3) == " ms"@);
    let b = decimal((ms / 1000) as nat) + " s"@;
    assert(b.take(b.len() - 2) == decimal((ms / 1000) as nat));
    assert(b.skip(b.len() - 2) == " s"@);
}

} // verus!
