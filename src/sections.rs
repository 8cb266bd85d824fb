//! The inventory sections that can be requested, and the query parameters of
//! one inventory page request.
use vstd::prelude::*;
use vstd::string::StringExecFns;

verus! {

/// The number of records that one inventory page holds at most.
pub const PAGE_SIZE: usize = 100;

/// A section of the computer inventory record.
#[derive(Clone, Copy, Debug, PartialEq, Eq, Structural)]
pub enum ComputerInventorySection {
    General,
    Hardware,
    OperatingSystem,
}

/// The name by which the API knows a section.
pub open spec fn section_wire_name(s: ComputerInventorySection) -> Seq<char> {
    match s {
        ComputerInventorySection::General => "GENERAL"@,
        ComputerInventorySection::Hardware => "HARDWARE"@,
        ComputerInventorySection::OperatingSystem => "OPERATING_SYSTEM"@,
    }
}

impl ComputerInventorySection {
    /// The name by which the API knows this section.
    pub fn to_string(&self) -> (r: String)
        ensures
            r@ == section_wire_name(*self),
    {
        match self {
            ComputerInventorySection::General => String::from_str("GENERAL"),
            ComputerInventorySection::Hardware => String::from_str("HARDWARE"),
            ComputerInventorySection::OperatingSystem => String::from_str("OPERATING_SYSTEM"),
        }
    }
}

/// The decimal digit for `d < 10`.
pub open spec fn digit_char(d: nat) -> char {
    if d == 0 { '0' }
    else if d == 1 { '1' }
    else if d == 2 { '2' }
    else if d == 3 { '3' }
    else if d == 4 { '4' }
    else if d == 5 { '5' }
    else if d == 6 { '6' }
    else if d == 7 { '7' }
    else if d == 8 { '8' }
    else { '9' }
}

/// The decimal notation of `n`, without sign or leading zeros.
pub open spec fn decimal(n: nat) -> Seq<char>
    decreases n,
{
    if n < 10 {
        seq![digit_char(n)]
    } else {
        decimal(n / 10).push(digit_char(n % 10))
    }
}

/// Relies on `usize`'s `ToString`, which writes the number in decimal.
#[verifier::external_body]
fn usize_text(n: usize) -> (r: String)
    ensures
        r@ == decimal(n as nat),
{
    n.to_string()
}

/// The query parameters of one inventory page request, in order: one
/// `section` parameter per requested section, then `page` and `page-size`.
pub open spec fn inventory_query(sections: Seq<ComputerInventorySection>, page: nat) -> Seq<(Seq<char>, Seq<char>)> {
    sections.map_values(|s: ComputerInventorySection| ("section"@, section_wire_name(s)))
        .push(("page"@, decimal(page)))
        .push(("page-size"@, decimal(PAGE_SIZE as nat)))
}

/// The views of a sequence of string pairs.
pub open spec fn pairs_view(v: Seq<(String, String)>) -> Seq<(Seq<char>, Seq<char>)> {
    v.map_values(|p: (String, String)| (p.0@, p.1@))
}

/// Builds the query parameters of the request for inventory page `page`.
pub fn query_params(sections: &Vec<ComputerInventorySection>, page: usize) -> (r: Vec<(String, String)>)
    ensures
        pairs_view(r@) == inventory_query(sections@, page as nat),
{
    let ghost expected = inventory_query(sections@, page as nat);
    let mut params: Vec<(String, String)> = Vec::new();
    let mut i: usize = 0;
    while i < sections.len()
        invariant
            0 <= i <= sections.len(),
            params@.len() == i,
            forall|j: int| 0 <= j < i ==> (#[trigger] params@[j]).0@ == "section"@
                && params@[j].1@ == section_wire_name(sections@[j]),
        decreases sections.len() - i,
    {
        params.push((String::from_str("section"), sections[i].to_string()));
        i = i + 1;
    }
    params.push((String::from_str("page"), usize_text(page)));
    params.push((String::from_str("page-size"), usize_text(PAGE_SIZE)));
    assert(pairs_view(params@) =~= expected);
    params
}

} // verus!
