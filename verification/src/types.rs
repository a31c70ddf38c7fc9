//! Numeric-free classification types shared by the public API.

use vstd::prelude::*;

verus! {

/// Broad indicator family used in metadata and registry lookups.
#[derive(Debug, Clone, Copy, PartialEq, Eq, Structural)]
pub enum IndicatorCategory {
    Overlay,
    Indicator,
    Math,
    Simple,
    Comparative,
}

/// Static description of an indicator's public shape.
#[derive(Debug, Clone, Copy)]
pub struct IndicatorMetadata {
    pub name: &'static str,
    pub full_name: &'static str,
    pub category: IndicatorCategory,
    pub input_names: &'static [&'static str],
    pub option_names: &'static [&'static str],
    pub output_names: &'static [&'static str],
}


/// The character sequences of a list of names.
pub open spec fn names_view(s: &[&str]) -> Seq<Seq<char>> {
    s@.map_values(|x: &str| x@)
}

impl IndicatorMetadata {
    /// The metadata carries exactly these names, category and series names.
    pub open spec fn describes(
        self,
        name: Seq<char>,
        full_name: Seq<char>,
        category: IndicatorCategory,
        input_names: Seq<Seq<char>>,
        option_names: Seq<Seq<char>>,
        output_names: Seq<Seq<char>>,
    ) -> bool {
        &&& self.name@ == name
        &&& self.full_name@ == full_name
        &&& self.category == category
        &&& names_view(self.input_names) =~= input_names
        &&& names_view(self.option_names) =~= option_names
        &&& names_view(self.output_names) =~= output_names
    }
}

} // verus!
