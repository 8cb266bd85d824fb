//! OS freshness: is an installed OS version superseded by any update that the
//! vendor lists as available?
use vstd::prelude::*;

verus! {

/// The outcome of comparing two version strings, one variant per comparison
/// operator that `version_compare` knows.
#[derive(Clone, Copy, Debug, PartialEq, Eq, Structural)]
pub enum VersionOrder {
    Eq,
    Ne,
    Lt,
    Le,
    Ge,
    Gt,
}

/// What `version_compare::compare(a, b)` returns for the version strings `a`
/// and `b`: `None` when either of them does not parse as a version, else the
/// ordering of `a` relative to `b`.
pub uninterp spec fn version_order(a: Seq<char>, b: Seq<char>) -> Option<VersionOrder>;

/// Relies on `version_compare::compare`: it parses both strings as versions
/// and fails when either does not parse, else orders the first against the
/// second. The result depends on the two strings alone.
#[verifier::external_body]
fn compare_versions(a: &str, b: &str) -> (r: Option<VersionOrder>)
    ensures
        r == version_order(a@, b@),
{
    match version_compare::compare(a, b) {
        Ok(version_compare::Cmp::Eq) => Some(VersionOrder::Eq),
        Ok(version_compare::Cmp::Ne) => Some(VersionOrder::Ne),
        Ok(version_compare::Cmp::Lt) => Some(VersionOrder::Lt),
        Ok(version_compare::Cmp::Le) => Some(VersionOrder::Le),
        Ok(version_compare::Cmp::Ge) => Some(VersionOrder::Ge),
        Ok(version_compare::Cmp::Gt) => Some(VersionOrder::Gt),
        Err(()) => None,
    }
}

/// An update supersedes the installed version when the installed version
/// orders strictly below it, or when the two cannot be compared at all
/// (an unparsable version is conservatively taken to be newer).
pub open spec fn supersedes(order: Option<VersionOrder>) -> bool {
    match order {
        None => true,
        Some(VersionOrder::Lt) => true,
        Some(_) => false,
    }
}

/// Whether `update` supersedes `installed`.
pub open spec fn update_is_newer(installed: Seq<char>, update: Seq<char>) -> bool {
    supersedes(version_order(installed, update))
}

/// The views of a sequence of strings.
pub open spec fn strings_view(v: Seq<String>) -> Seq<Seq<char>> {
    v.map_values(|s: String| s@)
}

/// A device is up to date when no listed update supersedes its version.
pub open spec fn up_to_date(installed: Seq<char>, updates: Seq<Seq<char>>) -> bool {
    !exists|i: int| 0 <= i < updates.len() && #[trigger] update_is_newer(installed, updates[i])
}

/// Decides, from the comparison of an installed version against one update,
/// whether that update supersedes the installed version.
pub fn order_supersedes(order: Option<VersionOrder>) -> (r: bool)
    ensures
        r == supersedes(order),
{
    match order {
        None => true,
        Some(VersionOrder::Lt) => true,
        Some(_) => false,
    }
}

/// Whether `os_version` is not superseded by any of `available_updates`.
pub fn is_os_updated(os_version: &str, available_updates: &Vec<String>) -> (r: bool)
    ensures
        r == up_to_date(os_version@, strings_view(available_updates@)),
{
    let ghost updates = strings_view(available_updates@);
    let mut i: usize = 0;
    while i < available_updates.len()
        invariant
            0 <= i <= available_updates.len(),
            updates == strings_view(available_updates@),
            forall|j: int| 0 <= j < i ==> !#[trigger] update_is_newer(os_version@, updates[j]),
        decreases available_updates.len() - i,
    {
        let order = compare_versions(os_version, available_updates[i].as_str());
        if order_supersedes(order) {
            assert(update_is_newer(os_version@, updates[i as int]));
            return false;
        }
        i = i + 1;
    }
    true
}

/// A device is reported as outdated whenever some listed update orders
/// strictly above its installed version, and as up to date whenever every
/// listed update parses and orders at or below it.
pub proof fn lemma_freshness_policy(installed: Seq<char>, updates: Seq<Seq<char>>)
    ensures
        (exists|i: int| 0 <= i < updates.len() && #[trigger] version_order(installed, updates[i])
            == Some(VersionOrder::Lt)) ==> !up_to_date(installed, updates),
        (forall|i: int| 0 <= i < updates.len() ==> {
            let o = #[trigger] version_order(installed, updates[i]);
            o == Some(VersionOrder::Eq) || o == Some(VersionOrder::Ge) || o == Some(VersionOrder::Gt)
        }) ==> up_to_date(installed, updates),
{
    if exists|i: int| 0 <= i < updates.len() && #[trigger] version_order(installed, updates[i])
        == Some(VersionOrder::Lt) {
        let i = choose|i: int| 0 <= i < updates.len() && #[trigger] version_order(installed, updates[i])
            == Some(VersionOrder::Lt);
        assert(update_is_newer(installed, updates[i]));
    }
}

/// A listed update that cannot be compared with the installed version (one of
/// the two does not parse as a version) always marks the device as outdated,
/// whatever the installed version is.
pub proof fn lemma_unparsable_update_is_stale(installed: Seq<char>, updates: Seq<Seq<char>>, i: int)
    requires
        0 <= i < updates.len(),
        version_order(installed, updates[i]) is None,
    ensures
        !up_to_date(installed, updates),
{
    assert(update_is_newer(installed, updates[i]));
}

} // verus!
