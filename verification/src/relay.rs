//! The relay record, its derived predicates, and the entry/exit filters
//! over a decoded directory.

use vstd::prelude::*;

verus! {

/// One relay of the directory. Optional fields hold `None` where the
/// payload had no value (absent or `null`); an empty string is a present,
/// empty value, kept distinct from absence. `exit_policy_summary` keeps its
/// members as name/ports pairs in document order. `AS` is the autonomous
/// system number, served under the wire name `as`.
#[allow(non_snake_case)]
#[derive(Debug, PartialEq, Eq)]
pub struct Relay {
    pub measured: bool,
    pub recommended_version: bool,
    pub as_name: Option<String>,
    pub AS: Option<String>,
    pub city_name: Option<String>,
    pub country: Option<String>,
    pub country_name: Option<String>,
    pub region_name: Option<String>,
    pub running: bool,
    pub platform: String,
    pub version: String,
    pub fingerprint: String,
    pub exit_policy: Vec<String>,
    pub exit_policy_summary: Vec<(String, Vec<String>)>,
    pub nickname: String,
    pub flags: Vec<String>,
    pub or_addresses: Vec<String>,
}

/// Some flag in `flags` spells exactly `name` (case-sensitive).
pub open spec fn seq_has_flag(flags: Seq<String>, name: Seq<char>) -> bool {
    exists|i: int| 0 <= i < flags.len() && flags[i]@ == name
}

/// Case-sensitive, exact membership test of `name` in `flags`.
fn has_flag(flags: &Vec<String>, name: &str) -> (r: bool)
    ensures
        r == seq_has_flag(flags@, name@),
{
    let target: String = name.to_owned();
    let mut i: usize = 0;
    while i < flags.len()
        invariant
            i <= flags@.len(),
            target@ == name@,
            forall|j: int| 0 <= j < i ==> flags@[j]@ != name@,
        decreases flags@.len() - i,
    {
        if flags[i] == target {
            proof {
                assert(flags@[i as int]@ == name@);
            }
            return true;
        }
        i = i + 1;
    }
    false
}

impl Relay {
    /// The record carries the `"Guard"` flag.
    pub open spec fn spec_is_entry(&self) -> bool {
        seq_has_flag(self.flags@, "Guard"@)
    }

    /// The record carries the `"Exit"` flag.
    pub open spec fn spec_is_exit(&self) -> bool {
        seq_has_flag(self.flags@, "Exit"@)
    }

    /// The first listed OR address, where there is one.
    pub open spec fn spec_or_address(&self) -> Option<String> {
        if self.or_addresses@.len() > 0 {
            Some(self.or_addresses@[0])
        } else {
            None
        }
    }

    /// True iff the literal string `"Guard"` is among `flags` — exact,
    /// case-sensitive, independent of any other flag.
    pub fn is_entry(&self) -> (r: bool)
        ensures
            r == self.spec_is_entry(),
    {
        has_flag(&self.flags, "Guard")
    }

    /// True iff the literal string `"Exit"` is among `flags` — exact,
    /// case-sensitive, independent of any other flag.
    pub fn is_exit(&self) -> (r: bool)
        ensures
            r == self.spec_is_exit(),
    {
        has_flag(&self.flags, "Exit")
    }

    /// The first element of `or_addresses` when there is one, `None` when
    /// the list is empty.
    pub fn or_address(&self) -> (r: Option<String>)
        ensures
            r == self.spec_or_address(),
    {
        if self.or_addresses.len() > 0 {
            Some(self.or_addresses[0].clone())
        } else {
            None
        }
    }
}

/// The subsequence of `nodes` whose records carry the `"Guard"` flag, in
/// the same relative order.
pub fn entry_nodes(nodes: Vec<Relay>) -> (r: Vec<Relay>)
    ensures
        r@ == nodes@.filter(|x: Relay| x.spec_is_entry()),
{
    let ghost all = nodes@;
    let mut rest = nodes;
    let mut out: Vec<Relay> = Vec::new();
    while rest.len() > 0
        invariant
            rest@.len() <= all.len(),
            rest@ == all.skip(all.len() - rest@.len()),
            out@ == all.take(all.len() - rest@.len()).filter(|x: Relay| x.spec_is_entry()),
        decreases rest.len(),
    {
        let ghost i = all.len() - rest@.len();
        let x = rest.remove(0);
        proof {
            assert(x == all[i]);
            assert(rest@ =~= all.skip(i + 1));
            assert(all.take(i + 1).drop_last() =~= all.take(i));
        }
        if x.is_entry() {
            out.push(x);
        }
        proof {
            reveal(Seq::filter);
            assert(out@ == all.take(i + 1).filter(|x: Relay| x.spec_is_entry()));
        }
    }
    proof {
        assert(all.take(all.len() as int) =~= all);
    }
    out
}

/// The subsequence of `nodes` whose records carry the `"Exit"` flag, in the
/// same relative order.
pub fn exit_nodes(nodes: Vec<Relay>) -> (r: Vec<Relay>)
    ensures
        r@ == nodes@.filter(|x: Relay| x.spec_is_exit()),
{
    let ghost all = nodes@;
    let mut rest = nodes;
    let mut out: Vec<Relay> = Vec::new();
    while rest.len() > 0
        invariant
            rest@.len() <= all.len(),
            rest@ == all.skip(all.len() - rest@.len()),
            out@ == all.take(all.len() - rest@.len()).filter(|x: Relay| x.spec_is_exit()),
        decreases rest.len(),
    {
        let ghost i = all.len() - rest@.len();
        let x = rest.remove(0);
        proof {
            assert(x == all[i]);
            assert(rest@ =~= all.skip(i + 1));
            assert(all.take(i + 1).drop_last() =~= all.take(i));
        }
        if x.is_exit() {
            out.push(x);
        }
        proof {
            reveal(Seq::filter);
            assert(out@ == all.take(i + 1).filter(|x: Relay| x.spec_is_exit()));
        }
    }
    proof {
        assert(all.take(all.len() as int) =~= all);
    }
    out
}

} // verus!
