//! The checkpoint record persisted with each confirmed export.
use vstd::prelude::*;
use crate::encode::{decimal, decimal_of};

verus! {

/// The record persisted beside exported data: the last sequence number whose
/// rows it holds.
#[derive(Clone, Copy, Debug, PartialEq, Eq, Structural)]
pub struct LastExportData {
    pub last_known_tx_version: u64,
}

/// The record as a JSON object with its one field: `{"last_known_tx_version":N}`.
pub open spec fn checkpoint_json(n: u64) -> Seq<u8> {
    seq![
        123u8, 34, 108, 97, 115, 116, 95, 107, 110, 111, 119, 110, 95, 116, 120, 95, 118, 101,
        114, 115, 105, 111, 110, 34, 58,
    ] + decimal(n as nat) + seq![125u8]
}

impl LastExportData {
    /// The record's JSON text, as bytes.
    pub fn to_json(&self) -> (r: Vec<u8>)
        ensures
            r@ == checkpoint_json(self.last_known_tx_version),
    {
        let mut r = vec![
            123u8, 34, 108, 97, 115, 116, 95, 107, 110, 111, 119, 110, 95, 116, 120, 95, 118, 101,
            114, 115, 105, 111, 110, 34, 58,
        ];
        let mut digits = decimal_of(self.last_known_tx_version);
        r.append(&mut digits);
        r.push(125u8);
        proof {
            assert(r@ =~= checkpoint_json(self.last_known_tx_version));
        }
        r
    }
}

} // verus!
