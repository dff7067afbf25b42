//! Identifiers of symbol files and their canonical hash strings.

use vstd::prelude::*;
use vstd::arithmetic::div_mod::lemma_small_mod;
use vstd::arithmetic::power::pow;
use crate::text::{
    all_digits, hex, hex_fixed, hex_value, lemma_hex, lemma_hex_fixed, push_hex, push_hex_fixed,
};

verus! {

/// Executable file information relevant to a symbol server.
#[derive(Clone, Debug, PartialEq, Eq, Hash, PartialOrd, Ord)]
pub struct ExeInfo {
    pub timestamp: u32,
    pub size: u32,
}

/// PDB file information relevant to a symbol server.
#[derive(Clone, Debug, PartialEq, Eq, Hash, PartialOrd, Ord)]
pub struct PdbInfo {
    pub guid: u128,
    pub age: u32,
}

/// Information about a symbol file resource.
#[derive(Clone, Debug, PartialEq, Eq, Hash, PartialOrd, Ord)]
pub enum SymFileInfo {
    Exe(ExeInfo),
    Pdb(PdbInfo),
    /// A raw symsrv-compatible hash.
    RawHash(String),
}

/// Eight lowercase digits of the timestamp, then the size in lowercase
/// hexadecimal without padding.
pub open spec fn exe_hash(i: ExeInfo) -> Seq<char> {
    hex_fixed(i.timestamp as nat, 8, false) + hex(i.size as nat, false)
}

/// Thirty-two uppercase digits of the GUID, then the age in lowercase
/// hexadecimal without padding.
pub open spec fn pdb_hash(i: PdbInfo) -> Seq<char> {
    hex_fixed(i.guid as nat, 32, true) + hex(i.age as nat, false)
}

/// The middle component of a resource's path on a symbol server.
pub open spec fn canonical_hash(info: SymFileInfo) -> Seq<char> {
    match info {
        SymFileInfo::Exe(i) => exe_hash(i),
        SymFileInfo::Pdb(i) => pdb_hash(i),
        SymFileInfo::RawHash(h) => h@,
    }
}

/// The canonical string of executable information is the timestamp as
/// exactly eight lowercase hexadecimal digits, zero-padded, followed by the
/// size as lowercase hexadecimal digits without leading zeros.
pub proof fn lemma_exe_hash(i: ExeInfo)
    ensures
        exe_hash(i).len() == 8 + hex(i.size as nat, false).len(),
        all_digits(exe_hash(i), false),
        hex_value(exe_hash(i).take(8)) == i.timestamp,
        hex_value(exe_hash(i).skip(8)) == i.size,
        i.size > 0 ==> exe_hash(i)[8] != '0',
{
    let t = hex_fixed(i.timestamp as nat, 8, false);
    let s = hex(i.size as nat, false);
    lemma_hex_fixed(i.timestamp as nat, 8, false);
    lemma_hex(i.size as nat, false);
    reveal_with_fuel(pow, 9);
    assert(pow(16, 8) == 4294967296);
    lemma_small_mod(i.timestamp as nat, 4294967296);
    assert(exe_hash(i).take(8) =~= t);
    assert(exe_hash(i).skip(8) =~= s);
    assert(exe_hash(i)[8] == s[0]);
    assert forall|k: int| 0 <= k < exe_hash(i).len() implies crate::text::lower_digits().contains(
        #[trigger] exe_hash(i)[k],
    ) by {
        if k < 8 {
            assert(exe_hash(i)[k] == t[k]);
        } else {
            assert(exe_hash(i)[k] == s[k - 8]);
        }
    }
}

/// The canonical string of PDB information is the GUID as exactly
/// thirty-two uppercase hexadecimal digits, zero-padded, followed by the age
/// as lowercase hexadecimal digits without leading zeros.
pub proof fn lemma_pdb_hash(i: PdbInfo)
    ensures
        pdb_hash(i).len() == 32 + hex(i.age as nat, false).len(),
        all_digits(pdb_hash(i).take(32), true),
        all_digits(pdb_hash(i).skip(32), false),
        hex_value(pdb_hash(i).take(32)) == i.guid,
        hex_value(pdb_hash(i).skip(32)) == i.age,
        i.age > 0 ==> pdb_hash(i)[32] != '0',
{
    let g = hex_fixed(i.guid as nat, 32, true);
    let a = hex(i.age as nat, false);
    lemma_hex_fixed(i.guid as nat, 32, true);
    lemma_hex(i.age as nat, false);
    reveal_with_fuel(pow, 33);
    assert(pow(16, 32) == u128::MAX as int + 1);
    lemma_small_mod(i.guid as nat, (u128::MAX as int + 1) as nat);
    assert(pdb_hash(i).take(32) =~= g);
    assert(pdb_hash(i).skip(32) =~= a);
    assert(pdb_hash(i)[32] == a[0]);
}

impl ExeInfo {
    pub fn to_string(&self) -> (r: String)
        ensures
            r@ == exe_hash(*self),
    {
        let mut s = String::new();
        push_hex_fixed(&mut s, self.timestamp as u128, 8, false);
        push_hex(&mut s, self.size as u128, false);
        s
    }
}

impl PdbInfo {
    pub fn to_string(&self) -> (r: String)
        ensures
            r@ == pdb_hash(*self),
    {
        let mut s = String::new();
        push_hex_fixed(&mut s, self.guid, 32, true);
        push_hex(&mut s, self.age as u128, false);
        s
    }
}

impl SymFileInfo {
    pub fn to_string(&self) -> (r: String)
        ensures
            r@ == canonical_hash(*self),
    {
        match self {
            SymFileInfo::Exe(i) => i.to_string(),
            SymFileInfo::Pdb(i) => i.to_string(),
            SymFileInfo::RawHash(h) => h.clone(),
        }
    }
}

} // verus!
