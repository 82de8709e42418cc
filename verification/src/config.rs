//! The persisted name configuration: a plain-text file of one
//! `MAC_ADDRESS=display_name` pair per line, and the in-memory table built
//! from it. Reading the file is the caller's business; each line is parsed
//! here.

use vstd::prelude::*;
use vstd::seq_lib::*;

use crate::errors::ConfigError;
use crate::mac::{parse_mac_chars, spec_parse_mac, str_chars, MacAddress};

verus! {

/// Relies on `String::from_iter` (through `Iterator::collect`): the
/// resulting string holds exactly the characters of the slice, in order.
#[verifier::external_body]
fn string_from_chars(cs: &[char]) -> (r: String)
    ensures
        r@ == cs@,
{
    cs.iter().collect()
}

/// Parse one line of the name configuration file.
///
/// The line must hold exactly one `=`: the text before it a MAC address,
/// the text after it the display name. A line without `=` fails with
/// `MissingSeparator`, one with a second `=` with `ExtraSeparator`, and
/// one whose first part is not a MAC address with `InvalidMacAddress`.
pub fn parse_name_line(line: &str) -> (r: Result<(MacAddress, String), ConfigError>)
    ensures
        line@.index_of_first('=') is None ==> r == Err::<(MacAddress, String), ConfigError>(
            ConfigError::MissingSeparator,
        ),
        line@.index_of_first('=') matches Some(i) ==> {
            if line@.skip(i + 1).contains('=') {
                r == Err::<(MacAddress, String), ConfigError>(ConfigError::ExtraSeparator)
            } else {
                match spec_parse_mac(line@.take(i)) {
                    Some(m) => r matches Ok(p) && p.0 == m && p.1@ == line@.skip(i + 1),
                    None => r == Err::<(MacAddress, String), ConfigError>(
                        ConfigError::InvalidMacAddress,
                    ),
                }
            }
        },
{
    let cs = str_chars(line);
    let n = cs.len();
    let mut k: usize = 0;
    while k < n && cs[k] != '='
        invariant
            n == cs@.len(),
            k <= n,
            forall|j: int| 0 <= j < k ==> cs@[j] != '=',
        decreases n - k,
    {
        k += 1;
    }
    proof {
        line@.index_of_first_ensures('=');
    }
    if k == n {
        return Err(ConfigError::MissingSeparator);
    }
    let mut j: usize = k + 1;
    while j < n && cs[j] != '='
        invariant
            n == cs@.len(),
            k < n,
            k + 1 <= j <= n,
            forall|t: int| k + 1 <= t < j ==> cs@[t] != '=',
        decreases n - j,
    {
        j += 1;
    }
    if j < n {
        proof {
            assert(line@.skip(k + 1)[j - (k + 1)] == '=');
        }
        return Err(ConfigError::ExtraSeparator);
    }
    proof {
        assert forall|t: int| 0 <= t < line@.skip(k + 1).len() implies #[trigger] line@.skip(
            k + 1,
        )[t] != '=' by {
            assert(line@.skip(k + 1)[t] == line@[t + k + 1]);
        }
        assert(!line@.skip(k + 1).contains('='));
    }
    let mac_part = vstd::slice::slice_subrange(cs.as_slice(), 0, k);
    proof {
        assert(mac_part@ =~= line@.take(k as int));
    }
    match parse_mac_chars(mac_part) {
        Ok(mac) => {
            let name_part = vstd::slice::slice_subrange(cs.as_slice(), k + 1, n);
            let name = string_from_chars(name_part);
            proof {
                assert(name_part@ =~= line@.skip(k + 1));
            }
            Ok((mac, name))
        },
        Err(_) => Err(ConfigError::InvalidMacAddress),
    }
}

/// The looked-up display name for a MAC address: the name of the last entry
/// carrying that address, so a later entry for the same address overrides
/// an earlier one, as the configuration file reads top to bottom.
pub open spec fn spec_lookup(
    entries: Seq<(MacAddress, Seq<char>)>,
    mac: MacAddress,
) -> Option<Seq<char>>
    decreases entries.len(),
{
    if entries.len() == 0 {
        None
    } else if entries.last().0 == mac {
        Some(entries.last().1)
    } else {
        spec_lookup(entries.drop_last(), mac)
    }
}

/// The table mapping MAC addresses to configured display names.
pub struct SensorNames {
    entries: Vec<(MacAddress, String)>,
}

impl View for SensorNames {
    type V = Seq<(MacAddress, Seq<char>)>;

    closed spec fn view(&self) -> Seq<(MacAddress, Seq<char>)> {
        self.entries@.map_values(|e: (MacAddress, String)| (e.0, e.1@))
    }
}

impl SensorNames {
    pub fn new() -> (r: SensorNames)
        ensures
            r@ == Seq::<(MacAddress, Seq<char>)>::empty(),
    {
        let r = SensorNames { entries: Vec::new() };
        proof {
            assert(r@ =~= Seq::<(MacAddress, Seq<char>)>::empty());
        }
        r
    }

    /// Append one configured pair; a later entry for the same address wins
    /// at lookup.
    pub fn add(&mut self, mac: MacAddress, name: String)
        ensures
            final(self)@ == old(self)@.push((mac, name@)),
    {
        self.entries.push((mac, name));
        proof {
            assert(self@ =~= old(self)@.push((mac, name@)));
        }
    }

    /// How many configured pairs the table holds.
    pub fn len(&self) -> (r: usize)
        ensures
            r == self@.len(),
    {
        self.entries.len()
    }

    /// The display name configured for a MAC address, if any.
    pub fn get(&self, mac: MacAddress) -> (r: Option<String>)
        ensures
            match spec_lookup(self@, mac) {
                Some(n) => r matches Some(s) && s@ == n,
                None => r is None,
            },
    {
        let mut i = self.entries.len();
        proof {
            assert(self@.take(i as int) =~= self@);
        }
        while i > 0
            invariant
                i <= self@.len(),
                spec_lookup(self@, mac) == spec_lookup(self@.take(i as int), mac),
            decreases i,
        {
            i -= 1;
            proof {
                assert(self@.take(i + 1).drop_last() =~= self@.take(i as int));
                assert(self@.take(i + 1).last() == self@[i as int]);
            }
            if self.entries[i].0 == mac {
                return Some(self.entries[i].1.clone());
            }
        }
        None
    }
}

} // verus!
